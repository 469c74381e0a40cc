//! Tagged results: the encoding of every outcome that crosses the boundary.

use vstd::prelude::*;

verus! {

/// The discriminant of a result that crosses the boundary.
#[derive(Clone, Copy, Debug, PartialEq, Eq, Structural)]
pub enum ResultEnum {
    /// The operation was carried out.
    Success,
    /// The operation was refused; a diagnostic comes with it.
    Failure,
}

/// What a [`CResult`] stands for.
pub enum Envelope {
    /// Success with nothing to hand over.
    Done,
    /// Success with a text for the caller.
    Text(Seq<char>),
    /// Failure with its diagnostic.
    Failure(Seq<char>),
}

impl Envelope {
    /// The tag under which this crosses the boundary.
    pub open spec fn tag(self) -> ResultEnum {
        if self is Failure {
            ResultEnum::Failure
        } else {
            ResultEnum::Success
        }
    }

    /// The diagnostic, where there is one.
    pub open spec fn diagnostic(self) -> Option<Seq<char>> {
        match self {
            Envelope::Failure(d) => Some(d),
            _ => None,
        }
    }

    /// The one string that crosses with the tag: the diagnostic of a
    /// failure, the text of a success that has one.
    pub open spec fn text(self) -> Option<Seq<char>> {
        match self {
            Envelope::Done => None,
            Envelope::Text(t) => Some(t),
            Envelope::Failure(d) => Some(d),
        }
    }
}

/// A tagged result with the strings that the caller will own.
///
/// The diagnostic is present exactly when the tag is `Failure`, and a text
/// only when the tag is `Success`. The fields are private and every
/// constructor keeps this, so it holds of each value that executable code
/// can reach.
#[derive(Debug)]
pub struct CResult {
    tag: ResultEnum,
    error: Option<String>,
    value: Option<String>,
}

impl View for CResult {
    type V = Envelope;

    closed spec fn view(&self) -> Envelope {
        match (self.error, self.value) {
            (Some(e), _) => Envelope::Failure(e@),
            (None, Some(v)) => Envelope::Text(v@),
            (None, None) => Envelope::Done,
        }
    }
}

impl CResult {
    /// The tag as stored.
    pub closed spec fn spec_tag(&self) -> ResultEnum {
        self.tag
    }

    /// The diagnostic as stored.
    pub closed spec fn spec_error(&self) -> Option<Seq<char>> {
        match self.error {
            Some(e) => Some(e@),
            None => None,
        }
    }

    /// The text of a success as stored.
    pub closed spec fn spec_value(&self) -> Option<Seq<char>> {
        match self.value {
            Some(v) => Some(v@),
            None => None,
        }
    }

    /// A diagnostic exactly on failure, a text only on success.
    #[verifier::type_invariant]
    pub open spec fn wf(&self) -> bool {
        &&& self.spec_tag() == ResultEnum::Failure <==> self.spec_error() is Some
        &&& self.spec_value() is Some ==> self.spec_tag() == ResultEnum::Success
    }

    /// What a result stands for tells its tag and its diagnostic.
    pub proof fn lemma_view_tells_tag_and_diagnostic(&self)
        requires
            self.wf(),
        ensures
            self@.tag() == self.spec_tag(),
            self@.diagnostic() == self.spec_error(),
            self@ is Failure <==> self.spec_error() is Some,
            self@ matches Envelope::Text(t) ==> self.spec_value() == Some(t),
    {
    }

    /// Encodes an outcome without payload; the diagnostic is a fresh copy of
    /// the failure's text.
    #[must_use]
    pub fn new(result: Result<(), &str>) -> (r: Self)
        ensures
            r.wf(),
            result matches Ok(_) ==> r@ == Envelope::Done,
            result matches Err(s) ==> r@ == Envelope::Failure(s@),
    {
        match result {
            Ok(()) => Self { tag: ResultEnum::Success, error: None, value: None },
            Err(s) => Self { tag: ResultEnum::Failure, error: Some(s.to_owned()), value: None },
        }
    }

    /// Encodes an outcome whose success is a text; a failure's diagnostic is
    /// a fresh copy of its text.
    #[must_use]
    pub fn from_text(result: Result<String, &str>) -> (r: Self)
        ensures
            r.wf(),
            result matches Ok(t) ==> r@ == Envelope::Text(t@),
            result matches Err(s) ==> r@ == Envelope::Failure(s@),
    {
        match result {
            Ok(t) => Self { tag: ResultEnum::Success, error: None, value: Some(t) },
            Err(s) => Self { tag: ResultEnum::Failure, error: Some(s.to_owned()), value: None },
        }
    }

    /// The tag. It is `Failure` exactly when there is a diagnostic.
    #[verifier::when_used_as_spec(spec_tag)]
    pub fn tag(&self) -> (t: ResultEnum)
        ensures
            t == self.spec_tag(),
            t == self@.tag(),
            t == ResultEnum::Failure <==> self.spec_error() is Some,
    {
        proof {
            use_type_invariant(self);
        }
        self.tag
    }

    /// The diagnostic: present exactly when the tag is `Failure`.
    pub fn error(&self) -> (e: Option<&str>)
        ensures
            e is Some <==> self.spec_tag() == ResultEnum::Failure,
            e matches Some(d) ==> self.spec_error() == Some(d@),
            e is None ==> self.spec_error() is None,
            self.spec_error() == self@.diagnostic(),
    {
        proof {
            use_type_invariant(self);
        }
        match &self.error {
            Some(d) => Some(d.as_str()),
            None => None,
        }
    }

    /// Gives up the tag and the one string that crosses with it, which the
    /// caller owns from here on.
    pub fn into_parts(self) -> (parts: (ResultEnum, Option<String>))
        ensures
            parts.0 == self@.tag(),
            parts.1 is Some <==> self@.text() is Some,
            parts.1 matches Some(t) ==> self@.text() == Some(t@),
    {
        proof {
            use_type_invariant(&self);
        }
        let CResult { tag, error, value } = self;
        match error {
            Some(d) => (tag, Some(d)),
            None => (tag, value),
        }
    }
}

} // verus!
