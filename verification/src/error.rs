//! Why a promotion fails.
use vstd::prelude::*;

verus! {

/// What the answer to a read of the distribution may lack.
#[derive(Debug, Clone, Copy, PartialEq, Eq, Structural)]
pub enum MissingPart {
    ETag,
    Config,
    DefaultCacheBehavior,
    Aliases,
    ViewerCertificate,
    CacheBehaviors,
}

impl MissingPart {
    /// The message that names the part.
    pub open spec fn spec_message(self) -> Seq<char> {
        match self {
            MissingPart::ETag => "No se pudo obtener el ETag"@,
            MissingPart::Config => "No se pudo obtener la configuración de la distribución"@,
            MissingPart::DefaultCacheBehavior => "Falta el DefaultCacheBehavior"@,
            MissingPart::Aliases => "Faltan los Aliases en la distribución actual"@,
            MissingPart::ViewerCertificate =>
                "Falta el ViewerCertificate en la distribución actual"@,
            MissingPart::CacheBehaviors => "Faltan los CacheBehaviors"@,
        }
    }

    /// The message that names the part.
    pub fn message(self) -> (message: &'static str)
        ensures
            message@ == self.spec_message(),
    {
        match self {
            MissingPart::ETag => "No se pudo obtener el ETag",
            MissingPart::Config => "No se pudo obtener la configuración de la distribución",
            MissingPart::DefaultCacheBehavior => "Falta el DefaultCacheBehavior",
            MissingPart::Aliases => "Faltan los Aliases en la distribución actual",
            MissingPart::ViewerCertificate =>
                "Falta el ViewerCertificate en la distribución actual",
            MissingPart::CacheBehaviors => "Faltan los CacheBehaviors",
        }
    }
}

/// Why a promotion failed.
#[derive(Debug)]
pub enum PromoteError {
    /// The distribution was read, and a part that the promotion needs is not there.
    Missing(MissingPart),
    /// A call to the service failed; the debug text of its error.
    Service(String),
}

/// The texts of a [`PromoteError`].
pub enum PromoteErrorView {
    Missing(MissingPart),
    Service(Seq<char>),
}

impl View for PromoteError {
    type V = PromoteErrorView;

    open spec fn view(&self) -> PromoteErrorView {
        match self {
            PromoteError::Missing(part) => PromoteErrorView::Missing(*part),
            PromoteError::Service(text) => PromoteErrorView::Service(text@),
        }
    }
}

impl PromoteErrorView {
    /// The debug text of the error: a missing part by its message between quotes.
    pub open spec fn debug_text(self) -> Seq<char> {
        match self {
            PromoteErrorView::Missing(part) => "\""@ + part.spec_message() + "\""@,
            PromoteErrorView::Service(text) => text,
        }
    }
}

impl PromoteError {
    /// The debug text of the error: a missing part by its message between quotes.
    pub fn debug_text(&self) -> (text: String)
        ensures
            text@ == self@.debug_text(),
    {
        match self {
            PromoteError::Missing(part) => "\"".to_owned().concat(part.message()).concat("\""),
            PromoteError::Service(text) => text.clone(),
        }
    }
}

} // verus!
