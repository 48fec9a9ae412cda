//! Shared error type for Galahad Encoder.

use vstd::prelude::*;
use vstd::string::*;

use crate::text;

verus! {

pub type Result<T> = std::result::Result<T, EncoderError>;

/// What went wrong, with the text that describes it.
#[derive(Debug, Clone, PartialEq, Eq)]
pub enum EncoderError {
    Config(String),
    Capability(String),
    Capture(String),
    Audio(String),
    Encoder(String),
    Pipeline(String),
    Control(String),
    /// An I/O failure, described by the operating system's own words.
    Io(String),
    /// A serialization failure, described by the serializer's own words.
    Serde(String),
}

/// An error as its family and its text.
pub enum ErrorView {
    Config(Seq<char>),
    Capability(Seq<char>),
    Capture(Seq<char>),
    Audio(Seq<char>),
    Encoder(Seq<char>),
    Pipeline(Seq<char>),
    Control(Seq<char>),
    Io(Seq<char>),
    Serde(Seq<char>),
}

impl View for EncoderError {
    type V = ErrorView;

    open spec fn view(&self) -> ErrorView {
        match self {
            EncoderError::Config(s) => ErrorView::Config(s@),
            EncoderError::Capability(s) => ErrorView::Capability(s@),
            EncoderError::Capture(s) => ErrorView::Capture(s@),
            EncoderError::Audio(s) => ErrorView::Audio(s@),
            EncoderError::Encoder(s) => ErrorView::Encoder(s@),
            EncoderError::Pipeline(s) => ErrorView::Pipeline(s@),
            EncoderError::Control(s) => ErrorView::Control(s@),
            EncoderError::Io(s) => ErrorView::Io(s@),
            EncoderError::Serde(s) => ErrorView::Serde(s@),
        }
    }
}

impl ErrorView {
    /// The stable tag of the error's family.
    pub open spec fn kind(self) -> Seq<char> {
        match self {
            ErrorView::Config(_) => "config"@,
            ErrorView::Capability(_) => "capability"@,
            ErrorView::Capture(_) => "capture"@,
            ErrorView::Audio(_) => "audio"@,
            ErrorView::Encoder(_) => "encoder"@,
            ErrorView::Pipeline(_) => "pipeline"@,
            ErrorView::Control(_) => "control"@,
            ErrorView::Io(_) => "io"@,
            ErrorView::Serde(_) => "serde"@,
        }
    }

    /// The error as one line for people.
    pub open spec fn message(self) -> Seq<char> {
        match self {
            ErrorView::Config(s) => "configuration error: "@ + s,
            ErrorView::Capability(s) => "capability error: "@ + s,
            ErrorView::Capture(s) => "capture error: "@ + s,
            ErrorView::Audio(s) => "audio error: "@ + s,
            ErrorView::Encoder(s) => "encoder error: "@ + s,
            ErrorView::Pipeline(s) => "pipeline error: "@ + s,
            ErrorView::Control(s) => "control channel error: "@ + s,
            ErrorView::Io(s) => "io error: "@ + s,
            ErrorView::Serde(s) => "serialization error: "@ + s,
        }
    }
}

/// A result with its value and its error taken by their views.
pub open spec fn outcome<T: View>(r: Result<T>) -> std::result::Result<T::V, ErrorView> {
    match r {
        Ok(v) => Ok(v@),
        Err(e) => Err(e@),
    }
}

impl EncoderError {
    /// The stable tag of the error's family.
    pub fn kind(&self) -> (r: &'static str)
        ensures
            r@ == self@.kind(),
    {
        match self {
            EncoderError::Config(_) => "config",
            EncoderError::Capability(_) => "capability",
            EncoderError::Capture(_) => "capture",
            EncoderError::Audio(_) => "audio",
            EncoderError::Encoder(_) => "encoder",
            EncoderError::Pipeline(_) => "pipeline",
            EncoderError::Control(_) => "control",
            EncoderError::Io(_) => "io",
            EncoderError::Serde(_) => "serde",
        }
    }

    /// The error as one line for people.
    pub fn message(&self) -> (r: String)
        ensures
            r@ == self@.message(),
    {
        match self {
            EncoderError::Config(s) => "configuration error: ".to_string().concat(s.as_str()),
            EncoderError::Capability(s) => "capability error: ".to_string().concat(s.as_str()),
            EncoderError::Capture(s) => "capture error: ".to_string().concat(s.as_str()),
            EncoderError::Audio(s) => "audio error: ".to_string().concat(s.as_str()),
            EncoderError::Encoder(s) => "encoder error: ".to_string().concat(s.as_str()),
            EncoderError::Pipeline(s) => "pipeline error: ".to_string().concat(s.as_str()),
            EncoderError::Control(s) => "control channel error: ".to_string().concat(s.as_str()),
            EncoderError::Io(s) => "io error: ".to_string().concat(s.as_str()),
            EncoderError::Serde(s) => "serialization error: ".to_string().concat(s.as_str()),
        }
    }
}

/// Errors of different families have different tags.
pub proof fn kinds_tell_families_apart(a: ErrorView, b: ErrorView)
    requires
        a.kind() == b.kind(),
    ensures
        a is Config == b is Config,
        a is Capability == b is Capability,
        a is Capture == b is Capture,
        a is Audio == b is Audio,
        a is Encoder == b is Encoder,
        a is Pipeline == b is Pipeline,
        a is Control == b is Control,
        a is Io == b is Io,
        a is Serde == b is Serde,
{
    reveal_strlit("config");
    reveal_strlit("capability");
    reveal_strlit("capture");
    reveal_strlit("audio");
    reveal_strlit("encoder");
    reveal_strlit("pipeline");
    reveal_strlit("control");
    reveal_strlit("io");
    reveal_strlit("serde");
    let x = a.kind();
    let y = b.kind();
    assert(x.len() == y.len() && x[0] == y[0] && x[1] == y[1]);
    assert(x.len() > 2 ==> x[2] == y[2]);
    assert(x.len() > 3 ==> x[3] == y[3]);
}

/// What went wrong in an error's own words.
pub open spec fn words_of_error(e: ErrorView) -> Seq<char> {
    match e {
        ErrorView::Config(s) => s,
        ErrorView::Capability(s) => s,
        ErrorView::Capture(s) => s,
        ErrorView::Audio(s) => s,
        ErrorView::Encoder(s) => s,
        ErrorView::Pipeline(s) => s,
        ErrorView::Control(s) => s,
        ErrorView::Io(s) => s,
        ErrorView::Serde(s) => s,
    }
}

/// An error's line for people names its family first, by the same word as its tag
/// where the tag is one, and ends with what went wrong, word for word.
#[verifier::rlimit(60)]
#[verifier::spinoff_prover]
pub proof fn messages_name_the_family(e: ErrorView)
    ensures
        text::finishes_with(e.message(), " error: "@ + words_of_error(e)),
        !(e is Serde) ==> text::begins_with(e.message(), e.kind()),
        e is Serde ==> text::begins_with(e.message(), "serialization"@),
        e.message().len() <= words_of_error(e).len() + 23,
{
    reveal_strlit(" error: ");
    reveal_strlit("config");
    reveal_strlit("capability");
    reveal_strlit("capture");
    reveal_strlit("audio");
    reveal_strlit("encoder");
    reveal_strlit("pipeline");
    reveal_strlit("control");
    reveal_strlit("io");
    reveal_strlit("serialization");
    reveal_strlit("configuration error: ");
    reveal_strlit("capability error: ");
    reveal_strlit("capture error: ");
    reveal_strlit("audio error: ");
    reveal_strlit("encoder error: ");
    reveal_strlit("pipeline error: ");
    reveal_strlit("control channel error: ");
    reveal_strlit("io error: ");
    reveal_strlit("serialization error: ");
    let m = e.message();
    let tail = " error: "@ + words_of_error(e);
    assert(m.subrange(m.len() - tail.len(), m.len() as int) =~= tail);
    if e is Serde {
        assert(m.subrange(0, 13) =~= "serialization"@);
    } else {
        assert(m.subrange(0, e.kind().len() as int) =~= e.kind());
    }
}

} // verus!
