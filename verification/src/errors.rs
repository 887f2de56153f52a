//! The errors that every operation of the library returns.
use vstd::prelude::*;

verus! {

/// What an exchange does not offer.
#[derive(Clone, Debug, PartialEq, Eq)]
pub struct MissingImplementationContent {
    pub message: String,
}

/// The error of an operation.
#[derive(Clone, Debug, PartialEq, Eq)]
pub enum OpenLimitsError {
    /// The market pair is not in the last snapshot of the exchange's markets.
    SymbolNotFound,
    /// The exchange left out an asset that it had named.
    AssetNotFound,
    /// The exchange does not offer what was asked for.
    MissingImplementation(MissingImplementationContent),
    /// The exchange or its transport reported an error; it is handed on as it
    /// came.
    NashProtocolError(String),
    /// A value that the exchange supplied could not be translated.
    NotParsableResponse(String),
    /// The request lacks a parameter that the exchange requires.
    MissingParameter(String),
    /// A parameter of the request cannot be handed to the exchange.
    InvalidParameter(String),
}

/// The kinds of errors. No operation retries after any of them.
#[derive(Clone, Copy, Debug, PartialEq, Eq, Structural)]
pub enum ErrorKind {
    /// The transport or the exchange reported the error; it is handed on as
    /// it came.
    Transport,
    /// A request could not be translated for the exchange, or what the
    /// exchange supplied could not be translated back.
    Translation,
    /// The exchange does not offer the operation. The error does not depend
    /// on the state of the network.
    UnsupportedOperation,
    /// What the caller supplied fails a precondition; nothing was sent.
    InvalidParameter,
}

/// The kind of an error, by its content.
pub open spec fn kind_of(e: ErrorView) -> ErrorKind {
    match e {
        ErrorView::NashProtocolError(_) => ErrorKind::Transport,
        ErrorView::NotParsableResponse(_) => ErrorKind::Translation,
        ErrorView::AssetNotFound => ErrorKind::Translation,
        ErrorView::MissingImplementation(_) => ErrorKind::UnsupportedOperation,
        ErrorView::SymbolNotFound => ErrorKind::InvalidParameter,
        ErrorView::MissingParameter(_) => ErrorKind::InvalidParameter,
        ErrorView::InvalidParameter(_) => ErrorKind::InvalidParameter,
    }
}

/// The message of an unknown market pair.
pub open spec fn unknown_pair_message() -> Seq<char> {
    "unknown market pair"@
}

/// The message of an asset that the exchange left out.
pub open spec fn unknown_asset_message() -> Seq<char> {
    "unknown asset"@
}

/// The message of an error, by its content.
pub open spec fn message_of(e: ErrorView) -> Seq<char> {
    match e {
        ErrorView::SymbolNotFound => unknown_pair_message(),
        ErrorView::AssetNotFound => unknown_asset_message(),
        ErrorView::MissingImplementation(s) => s,
        ErrorView::NashProtocolError(s) => s,
        ErrorView::NotParsableResponse(s) => s,
        ErrorView::MissingParameter(s) => s,
        ErrorView::InvalidParameter(s) => s,
    }
}

/// The mathematical content of an [`OpenLimitsError`].
pub ghost enum ErrorView {
    SymbolNotFound,
    AssetNotFound,
    MissingImplementation(Seq<char>),
    NashProtocolError(Seq<char>),
    NotParsableResponse(Seq<char>),
    MissingParameter(Seq<char>),
    InvalidParameter(Seq<char>),
}

impl View for OpenLimitsError {
    type V = ErrorView;

    open spec fn view(&self) -> ErrorView {
        match *self {
            OpenLimitsError::SymbolNotFound => ErrorView::SymbolNotFound,
            OpenLimitsError::AssetNotFound => ErrorView::AssetNotFound,
            OpenLimitsError::MissingImplementation(c) => ErrorView::MissingImplementation(
                c.message@,
            ),
            OpenLimitsError::NashProtocolError(m) => ErrorView::NashProtocolError(m@),
            OpenLimitsError::NotParsableResponse(m) => ErrorView::NotParsableResponse(m@),
            OpenLimitsError::MissingParameter(m) => ErrorView::MissingParameter(m@),
            OpenLimitsError::InvalidParameter(m) => ErrorView::InvalidParameter(m@),
        }
    }
}

/// What an operation gave: the content of its result, or of its error.
pub open spec fn outcome<T: View>(r: Result<T, OpenLimitsError>) -> Result<T::V, ErrorView> {
    match r {
        Ok(t) => Ok(t@),
        Err(e) => Err(e@),
    }
}

/// What an operation that lists gave: the contents of the items, or the
/// content of its error.
pub open spec fn list_outcome<T: View>(r: Result<Vec<T>, OpenLimitsError>) -> Result<
    Seq<T::V>,
    ErrorView,
> {
    match r {
        Ok(items) => Ok(crate::shared::views(items@)),
        Err(e) => Err(e@),
    }
}

/// The message of a decimal that could not be read.
pub open spec fn decimal_message() -> Seq<char> {
    "Couldn't parse Decimal from string."@
}

/// The message of an amount that cannot be represented.
pub open spec fn overflow_message() -> Seq<char> {
    "Decimal arithmetic overflowed."@
}

/// The error of a decimal that could not be read.
pub open spec fn decimal_error() -> ErrorView {
    ErrorView::NotParsableResponse(decimal_message())
}

/// The error of an amount that cannot be represented.
pub open spec fn overflow_error() -> ErrorView {
    ErrorView::NotParsableResponse(overflow_message())
}

impl OpenLimitsError {
    /// The error of an operation that the exchange does not offer.
    pub fn unsupported(message: &str) -> (e: OpenLimitsError)
        ensures
            e@ == ErrorView::MissingImplementation(message@),
    {
        OpenLimitsError::MissingImplementation(
            MissingImplementationContent { message: message.to_owned() },
        )
    }

    /// The error of a parameter that cannot be handed to the exchange.
    pub fn invalid_parameter(message: &str) -> (e: OpenLimitsError)
        ensures
            e@ == ErrorView::InvalidParameter(message@),
    {
        OpenLimitsError::InvalidParameter(message.to_owned())
    }

    /// The error of a parameter that the exchange requires and the request
    /// lacks.
    pub fn missing_parameter(message: &str) -> (e: OpenLimitsError)
        ensures
            e@ == ErrorView::MissingParameter(message@),
    {
        OpenLimitsError::MissingParameter(message.to_owned())
    }

    /// The error of a decimal that could not be read.
    pub fn not_a_decimal() -> (e: OpenLimitsError)
        ensures
            e@ == decimal_error(),
    {
        OpenLimitsError::NotParsableResponse("Couldn't parse Decimal from string.".to_owned())
    }

    /// The error of an amount that cannot be represented.
    pub fn overflow() -> (e: OpenLimitsError)
        ensures
            e@ == overflow_error(),
    {
        OpenLimitsError::NotParsableResponse("Decimal arithmetic overflowed.".to_owned())
    }

    /// The kind of the error.
    pub fn kind(&self) -> (k: ErrorKind)
        ensures
            k == kind_of(self@),
    {
        match self {
            OpenLimitsError::NashProtocolError(_) => ErrorKind::Transport,
            OpenLimitsError::NotParsableResponse(_) => ErrorKind::Translation,
            OpenLimitsError::AssetNotFound => ErrorKind::Translation,
            OpenLimitsError::MissingImplementation(_) => ErrorKind::UnsupportedOperation,
            OpenLimitsError::SymbolNotFound => ErrorKind::InvalidParameter,
            OpenLimitsError::MissingParameter(_) => ErrorKind::InvalidParameter,
            OpenLimitsError::InvalidParameter(_) => ErrorKind::InvalidParameter,
        }
    }

    /// The message of the error: the one it carries, or the one that names
    /// what was not found.
    pub fn message(&self) -> (m: String)
        ensures
            m@ == message_of(self@),
    {
        match self {
            OpenLimitsError::SymbolNotFound => "unknown market pair".to_owned(),
            OpenLimitsError::AssetNotFound => "unknown asset".to_owned(),
            OpenLimitsError::MissingImplementation(c) => c.message.clone(),
            OpenLimitsError::NashProtocolError(m) => m.clone(),
            OpenLimitsError::NotParsableResponse(m) => m.clone(),
            OpenLimitsError::MissingParameter(m) => m.clone(),
            OpenLimitsError::InvalidParameter(m) => m.clone(),
        }
    }
}

} // verus!
