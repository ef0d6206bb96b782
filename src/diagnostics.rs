use vstd::prelude::*;

verus! {

/// What a diagnostic reports.
#[derive(Clone, Copy, Debug, PartialEq, Eq, Structural)]
pub enum DiagnosticKind {
    /// A runnable function declares generic parameters.
    GenericParamsNotAllowed,
    /// A raw entry point returns something other than `()`.
    InvalidReturnType,
    /// A raw entry point does not take exactly two parameters.
    InvalidParamCount,
    /// A parameter of a raw entry point has the wrong type.
    InvalidParamType,
    /// A parameter of a raw entry point is passed the wrong way.
    InvalidParamMutability,
}

/// The source construct a diagnostic points at.
#[derive(Clone, Copy, Debug, PartialEq, Eq, Structural)]
pub enum Anchor {
    /// The generic-parameter list of the declaration being expanded.
    GenericParams,
    /// The return-type clause of the function at this index of the module.
    ReturnType(usize),
    /// The parameter list of the function at this index of the module.
    ParamList(usize),
    /// A parameter (second index) of the function at this index of the module.
    Param(usize, usize),
}

/// An error reported against the source.
#[derive(Clone, Debug)]
pub struct Diagnostic {
    pub kind: DiagnosticKind,
    pub anchor: Anchor,
    pub message: String,
}

impl View for Diagnostic {
    type V = (DiagnosticKind, Anchor, Seq<char>);

    open spec fn view(&self) -> Self::V {
        (self.kind, self.anchor, self.message@)
    }
}

/// The views of a sequence of diagnostics.
pub open spec fn diagnostic_views(v: Seq<Diagnostic>) -> Seq<(DiagnosticKind, Anchor, Seq<char>)> {
    v.map_values(|d: Diagnostic| d@)
}

/// The message that goes with a diagnostic of `kind` at `anchor`.
pub open spec fn message_of(kind: DiagnosticKind, anchor: Anchor) -> Seq<char> {
    match kind {
        DiagnosticKind::GenericParamsNotAllowed => "Runnable functions cannot have generic params."@,
        DiagnosticKind::InvalidReturnType =>
            "Invalid return type for `#[runnable_raw]` function, expected `()`."@,
        DiagnosticKind::InvalidParamCount =>
            "Invalid number of params for `#[runnable_raw]` function, expected 2."@,
        DiagnosticKind::InvalidParamType => if anchor matches Anchor::Param(_, 0) {
            "Invalid first param type for `#[runnable_raw]` function, expected `Span<felt252>`."@
        } else {
            "Invalid second param type for `#[runnable_raw]` function, expected `Array<felt252>`."@
        },
        DiagnosticKind::InvalidParamMutability => if anchor matches Anchor::Param(_, 0) {
            "Invalid first param mutability for `#[runnable_raw]` function, got unexpected `ref`."@
        } else {
            "Invalid second param mutability for `#[runnable_raw]` function, expected `ref`."@
        },
    }
}

/// The diagnostic of `kind` at `anchor`, as a value.
pub open spec fn diag(kind: DiagnosticKind, anchor: Anchor) -> (DiagnosticKind, Anchor, Seq<char>) {
    (kind, anchor, message_of(kind, anchor))
}

impl Diagnostic {
    /// The diagnostic of `kind` at `anchor`, with its message.
    pub fn new(kind: DiagnosticKind, anchor: Anchor) -> (r: Diagnostic)
        ensures
            r@ == diag(kind, anchor),
    {
        let message = match kind {
            DiagnosticKind::GenericParamsNotAllowed => String::from_str(
                "Runnable functions cannot have generic params.",
            ),
            DiagnosticKind::InvalidReturnType => String::from_str(
                "Invalid return type for `#[runnable_raw]` function, expected `()`.",
            ),
            DiagnosticKind::InvalidParamCount => String::from_str(
                "Invalid number of params for `#[runnable_raw]` function, expected 2.",
            ),
            DiagnosticKind::InvalidParamType => if matches!(anchor, Anchor::Param(_, 0)) {
                String::from_str(
                    "Invalid first param type for `#[runnable_raw]` function, expected `Span<felt252>`.",
                )
            } else {
                String::from_str(
                    "Invalid second param type for `#[runnable_raw]` function, expected `Array<felt252>`.",
                )
            },
            DiagnosticKind::InvalidParamMutability => if matches!(anchor, Anchor::Param(_, 0)) {
                String::from_str(
                    "Invalid first param mutability for `#[runnable_raw]` function, got unexpected `ref`.",
                )
            } else {
                String::from_str(
                    "Invalid second param mutability for `#[runnable_raw]` function, expected `ref`.",
                )
            },
        };
        Diagnostic { kind, anchor, message }
    }
}

} // verus!
