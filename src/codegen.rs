use crate::diagnostics::{diag, diagnostic_views, Anchor, Diagnostic, DiagnosticKind};
use crate::text::{
    contains_tag, decimal, decimal_string, has_tag, join_strings, joined, string_views,
};
use vstd::prelude::*;

verus! {

/// The attribute that asks for an entry point to be generated.
pub const RUNNABLE_ATTR: &'static str = "runnable";

/// The attribute that marks a function as a raw entry point.
pub const RUNNABLE_RAW_ATTR: &'static str = "runnable_raw";

/// The prefix of every generated name.
pub const RUNNABLE_PREFIX: &'static str = "__runnable_wrapper__";

/// A parameter of a function declaration.
#[derive(Clone, Debug)]
pub struct ParamDecl {
    pub name: String,
}

/// A free function declaration, as the generator reads it.
#[derive(Clone, Debug)]
pub struct FunctionDecl {
    pub name: String,
    pub params: Vec<ParamDecl>,
    /// Whether the declaration writes an explicit return-type clause.
    pub has_return_clause: bool,
    /// Whether the generic-parameter list is non-empty.
    pub has_generic_params: bool,
    /// The names of the attributes attached to the declaration.
    pub attributes: Vec<String>,
}

/// What the generator needs to know of a declaration.
pub struct FunctionDeclView {
    pub name: Seq<char>,
    pub param_count: nat,
    pub has_return_clause: bool,
    pub has_generic_params: bool,
    pub attributes: Seq<Seq<char>>,
}

impl View for FunctionDecl {
    type V = FunctionDeclView;

    open spec fn view(&self) -> FunctionDeclView {
        FunctionDeclView {
            name: self.name@,
            param_count: self.params@.len(),
            has_return_clause: self.has_return_clause,
            has_generic_params: self.has_generic_params,
            attributes: string_views(self.attributes@),
        }
    }
}

/// An item of a module.
#[derive(Clone, Debug)]
pub enum ModuleItem {
    FreeFunction(FunctionDecl),
    /// Any other kind of item.
    Other,
}

/// The source construct that a piece of generated text maps back to.
#[derive(Clone, Copy, Debug, PartialEq, Eq, Structural)]
pub enum Origin {
    /// No construct of its own: the whole declaration.
    Declaration,
    /// The declaration's name; the text is that name.
    FunctionName,
    /// The parameter at this index.
    Param(usize),
    /// The return-type clause.
    ReturnTypeClause,
}

/// A piece of generated text and where it maps back to.
#[derive(Clone, Debug)]
pub struct Segment {
    pub text: String,
    pub origin: Origin,
}

impl View for Segment {
    type V = (Seq<char>, Origin);

    open spec fn view(&self) -> (Seq<char>, Origin) {
        (self.text@, self.origin)
    }
}

/// The views of a sequence of segments.
pub open spec fn segment_views(v: Seq<Segment>) -> Seq<(Seq<char>, Origin)> {
    v.map_values(|s: Segment| s@)
}

/// A generated source file: its name and its text, piece by piece.
#[derive(Clone, Debug)]
pub struct GeneratedUnit {
    pub name: String,
    pub segments: Vec<Segment>,
}

/// What the generator returns for one item.
#[derive(Clone, Debug)]
pub struct PluginResult {
    pub code: Option<GeneratedUnit>,
    pub diagnostics: Vec<Diagnostic>,
    /// Whether the expanded item is to be dropped; the generator keeps it.
    pub remove_original_item: bool,
}

/// The capability types listed, in this order, on every generated entry point.
pub open spec fn implicit_precedence() -> Seq<Seq<char>> {
    seq![
        "core::pedersen::Pedersen"@,
        "core::RangeCheck"@,
        "core::integer::Bitwise"@,
        "core::ec::EcOp"@,
        "core::poseidon::Poseidon"@,
        "core::circuit::RangeCheck96"@,
        "core::circuit::AddMod"@,
        "core::circuit::MulMod"@,
    ]
}

/// The attribute line that fixes the order of the implicit arguments.
pub open spec fn implicit_precedence_attr() -> Seq<char> {
    "#[implicit_precedence("@ + joined(implicit_precedence(), ", "@) + ")]"@
}

/// Text that maps back to the declaration as a whole.
pub open spec fn plain(text: Seq<char>) -> (Seq<char>, Origin) {
    (text, Origin::Declaration)
}

/// The signature of the wrapper of the function named `name`.
pub open spec fn header(name: Seq<char>) -> Seq<(Seq<char>, Origin)> {
    seq![
        plain("\n"@ + implicit_precedence_attr() + "\n#[runnable_raw]\nfn "@ + RUNNABLE_PREFIX@),
        (name, Origin::FunctionName),
        plain("(mut input: Span<felt252>, ref output: Array<felt252>) {\n\n"@),
    ]
}

/// The name bound to the `i`th argument.
pub open spec fn binding(i: nat) -> Seq<char> {
    "__param"@ + RUNNABLE_PREFIX@ + decimal(i)
}

/// The statement that reads the `i`th argument from the input.
pub open spec fn deserialize_stmt(i: nat) -> (Seq<char>, Origin) {
    (
        "    let "@ + binding(i) + " = Serde::deserialize(ref input).expect('Failed to deserialize param #"@
            + decimal(i) + "');\n"@,
        Origin::Param(i as usize),
    )
}

/// The statement that asserts that the whole input was read.
pub open spec fn input_consumed_stmt() -> (Seq<char>, Origin) {
    plain("    assert(core::array::SpanTrait::is_empty(input), 'Input too long for params.');\n"@)
}

/// The opening of the call of the function named `name`.
pub open spec fn call_open(name: Seq<char>) -> Seq<(Seq<char>, Origin)> {
    seq![plain("    let __result = @"@), (name, Origin::FunctionName), plain("(\n"@)]
}

/// The `i`th argument of the call.
pub open spec fn call_arg(i: nat) -> (Seq<char>, Origin) {
    ("        "@ + binding(i) + ",\n"@, Origin::Param(i as usize))
}

/// The end of the call.
pub open spec fn call_close() -> (Seq<char>, Origin) {
    plain("    );\n"@)
}

/// The statement that writes the result to the output, mapped to the
/// return-type clause when there is one.
pub open spec fn serialize_stmt(has_return_clause: bool) -> (Seq<char>, Origin) {
    (
        "    Serde::serialize(__result, ref output);\n"@,
        if has_return_clause { Origin::ReturnTypeClause } else { Origin::Declaration },
    )
}

/// The end of the wrapper.
pub open spec fn wrapper_end() -> (Seq<char>, Origin) {
    plain("}\n"@)
}

/// The text of the wrapper generated for `d`, piece by piece.
pub open spec fn wrapper_segments(d: FunctionDeclView) -> Seq<(Seq<char>, Origin)> {
    header(d.name)
        + Seq::new(d.param_count, |i: int| deserialize_stmt(i as nat))
        + seq![input_consumed_stmt()]
        + call_open(d.name)
        + Seq::new(d.param_count, |i: int| call_arg(i as nat))
        + seq![call_close(), serialize_stmt(d.has_return_clause), wrapper_end()]
}

/// Whether `d` asks for a wrapper.
pub open spec fn is_runnable(d: FunctionDeclView) -> bool {
    has_tag(d.attributes, RUNNABLE_ATTR@)
}

/// The text that the generator produces for `item`, if any.
pub open spec fn generated_segments(item: ModuleItem) -> Option<Seq<(Seq<char>, Origin)>> {
    match item {
        ModuleItem::FreeFunction(d) => if is_runnable(d@) && !d@.has_generic_params {
            Some(wrapper_segments(d@))
        } else {
            None
        },
        ModuleItem::Other => None,
    }
}

/// The diagnostics that the generator reports for `item`.
pub open spec fn generation_diagnostics(item: ModuleItem) -> Seq<(DiagnosticKind, Anchor, Seq<char>)> {
    match item {
        ModuleItem::FreeFunction(d) => if is_runnable(d@) && d@.has_generic_params {
            seq![diag(DiagnosticKind::GenericParamsNotAllowed, Anchor::GenericParams)]
        } else {
            Seq::empty()
        },
        ModuleItem::Other => Seq::empty(),
    }
}

/// Whether `r` is what the generator returns for `item`.
pub open spec fn generated_for(item: ModuleItem, r: PluginResult) -> bool {
    &&& match generated_segments(item) {
        Some(s) => r.code is Some && r.code->0.name@ == "runnable"@ && segment_views(
            r.code->0.segments@,
        ) == s,
        None => r.code is None,
    }
    &&& diagnostic_views(r.diagnostics@) == generation_diagnostics(item)
    &&& !r.remove_original_item
}

fn segment(text: &str, origin: Origin) -> (r: Segment)
    ensures
        r@ == (text@, origin),
{
    Segment { text: String::from_str(text), origin }
}

fn precedence_attr() -> (r: String)
    ensures
        r@ == implicit_precedence_attr(),
{
    let names: Vec<String> = vec![
        String::from_str("core::pedersen::Pedersen"),
        String::from_str("core::RangeCheck"),
        String::from_str("core::integer::Bitwise"),
        String::from_str("core::ec::EcOp"),
        String::from_str("core::poseidon::Poseidon"),
        String::from_str("core::circuit::RangeCheck96"),
        String::from_str("core::circuit::AddMod"),
        String::from_str("core::circuit::MulMod"),
    ];
    assert(string_views(names@) =~= implicit_precedence());
    let joined_names = join_strings(&names, ", ");
    let mut r = String::from_str("#[implicit_precedence(");
    r.append(joined_names.as_str());
    r.append(")]");
    r
}

fn binding_string(i: usize) -> (r: String)
    ensures
        r@ == binding(i as nat),
{
    let mut r = String::from_str("__param");
    r.append(RUNNABLE_PREFIX);
    let digits = decimal_string(i);
    r.append(digits.as_str());
    r
}

/// The wrapper generated for `d`.
pub fn wrapper(d: &FunctionDecl) -> (r: Vec<Segment>)
    ensures
        segment_views(r@) == wrapper_segments(d@),
{
    let n = d.params.len();
    let mut out: Vec<Segment> = Vec::new();
    let mut first = String::from_str("\n");
    let attr = precedence_attr();
    first.append(attr.as_str());
    first.append("\n#[runnable_raw]\nfn ");
    first.append(RUNNABLE_PREFIX);
    out.push(Segment { text: first, origin: Origin::Declaration });
    out.push(Segment { text: d.name.clone(), origin: Origin::FunctionName });
    out.push(segment("(mut input: Span<felt252>, ref output: Array<felt252>) {\n\n", Origin::Declaration));
    assert(segment_views(out@) =~= header(d.name@));
    let ghost start = segment_views(out@);
    let mut i: usize = 0;
    while i < n
        invariant
            n == d.params@.len(),
            i <= n,
            segment_views(out@) =~= start + Seq::new(i as nat, |k: int| deserialize_stmt(k as nat)),
        decreases n - i,
    {
        let mut text = String::from_str("    let ");
        let b = binding_string(i);
        text.append(b.as_str());
        text.append(" = Serde::deserialize(ref input).expect('Failed to deserialize param #");
        let digits = decimal_string(i);
        text.append(digits.as_str());
        text.append("');\n");
        let ghost prev = segment_views(out@);
        out.push(Segment { text, origin: Origin::Param(i) });
        assert(segment_views(out@) =~= prev.push(deserialize_stmt(i as nat)));
        i = i + 1;
    }
    out.push(segment(
        "    assert(core::array::SpanTrait::is_empty(input), 'Input too long for params.');\n",
        Origin::Declaration,
    ));
    out.push(segment("    let __result = @", Origin::Declaration));
    out.push(Segment { text: d.name.clone(), origin: Origin::FunctionName });
    out.push(segment("(\n", Origin::Declaration));
    let ghost middle = segment_views(out@);
    assert(middle =~= header(d.name@) + Seq::new(n as nat, |k: int| deserialize_stmt(k as nat))
        + seq![input_consumed_stmt()] + call_open(d.name@));
    let mut j: usize = 0;
    while j < n
        invariant
            n == d.params@.len(),
            j <= n,
            segment_views(out@) =~= middle + Seq::new(j as nat, |k: int| call_arg(k as nat)),
        decreases n - j,
    {
        let mut text = String::from_str("        ");
        let b = binding_string(j);
        text.append(b.as_str());
        text.append(",\n");
        let ghost prev = segment_views(out@);
        out.push(Segment { text, origin: Origin::Param(j) });
        assert(segment_views(out@) =~= prev.push(call_arg(j as nat)));
        j = j + 1;
    }
    out.push(segment("    );\n", Origin::Declaration));
    let serialize_origin = if d.has_return_clause {
        Origin::ReturnTypeClause
    } else {
        Origin::Declaration
    };
    out.push(segment("    Serde::serialize(__result, ref output);\n", serialize_origin));
    out.push(segment("}\n", Origin::Declaration));
    assert(segment_views(out@) =~= wrapper_segments(d@));
    out
}

fn nothing_generated() -> (r: PluginResult)
    ensures
        r.code is None,
        diagnostic_views(r.diagnostics@) == Seq::<(DiagnosticKind, Anchor, Seq<char>)>::empty(),
        !r.remove_original_item,
{
    let r = PluginResult { code: None, diagnostics: Vec::new(), remove_original_item: false };
    assert(diagnostic_views(r.diagnostics@) =~= Seq::empty());
    r
}

/// Generates an entry-point wrapper for each function marked `#[runnable]`.
#[derive(Clone, Copy, Debug, Default)]
pub struct RunnablePlugin;

impl RunnablePlugin {
    /// Expands `item`: a runnable free function without generic parameters
    /// gets an entry-point wrapper; one with generic parameters gets a
    /// diagnostic. Any other item is left alone.
    pub fn generate_code(&self, item: &ModuleItem) -> (r: PluginResult)
        ensures
            generated_for(*item, r),
    {
        expand(item)
    }

    /// The attributes that this plugin understands.
    pub fn declared_attributes(&self) -> (r: Vec<String>)
        ensures
            string_views(r@) == seq![RUNNABLE_ATTR@, RUNNABLE_RAW_ATTR@],
    {
        let r = vec![String::from_str(RUNNABLE_ATTR), String::from_str(RUNNABLE_RAW_ATTR)];
        assert(string_views(r@) =~= seq![RUNNABLE_ATTR@, RUNNABLE_RAW_ATTR@]);
        r
    }

    /// The attributes that make a function an executable entry point.
    pub fn executable_attributes(&self) -> (r: Vec<String>)
        ensures
            string_views(r@) == seq![RUNNABLE_RAW_ATTR@],
    {
        let r = vec![String::from_str(RUNNABLE_RAW_ATTR)];
        assert(string_views(r@) =~= seq![RUNNABLE_RAW_ATTR@]);
        r
    }
}

fn expand(item: &ModuleItem) -> (r: PluginResult)
    ensures
        generated_for(*item, r),
{
    let decl = match item {
        ModuleItem::FreeFunction(d) => d,
        ModuleItem::Other => {
            return nothing_generated();
        },
    };
    let runnable = String::from_str(RUNNABLE_ATTR);
    if !contains_tag(&decl.attributes, &runnable) {
        return nothing_generated();
    }
    let mut diagnostics: Vec<Diagnostic> = Vec::new();
    if decl.has_generic_params {
        diagnostics.push(Diagnostic::new(DiagnosticKind::GenericParamsNotAllowed, Anchor::GenericParams));
        assert(diagnostic_views(diagnostics@) =~= generation_diagnostics(*item));
        return PluginResult { code: None, diagnostics, remove_original_item: false };
    }
    let segments = wrapper(decl);
    let unit = GeneratedUnit { name: String::from_str("runnable"), segments };
    assert(diagnostic_views(diagnostics@) =~= generation_diagnostics(*item));
    PluginResult { code: Some(unit), diagnostics, remove_original_item: false }
}

/// A runnable declaration with no parameters gets a wrapper that reads
/// nothing, asserts once that the input is empty, calls the function with no
/// arguments and writes its result once.
pub proof fn lemma_wrapper_without_params(d: FunctionDecl)
    requires
        is_runnable(d@),
        !d@.has_generic_params,
        d@.param_count == 0,
    ensures
        generated_segments(ModuleItem::FreeFunction(d)) == Some(
            header(d@.name) + seq![input_consumed_stmt()] + call_open(d@.name) + seq![
                call_close(),
                serialize_stmt(d@.has_return_clause),
                wrapper_end(),
            ],
        ),
{
    let n = d@.param_count;
    assert(Seq::new(n, |i: int| deserialize_stmt(i as nat)) =~= Seq::empty());
    assert(Seq::new(n, |i: int| call_arg(i as nat)) =~= Seq::empty());
    assert(wrapper_segments(d@) =~= header(d@.name) + seq![input_consumed_stmt()] + call_open(d@.name)
        + seq![call_close(), serialize_stmt(d@.has_return_clause), wrapper_end()]);
}

/// A runnable declaration with `n` parameters and no generic parameters gets
/// a wrapper that holds, in this order: its signature; `n` statements, the
/// `i`th of which reads binding `i` and maps to parameter `i`; one assertion
/// that the input is consumed; a call that passes the `n` bindings in order;
/// and one statement that writes the result to the output.
pub proof fn lemma_wrapper_layout(d: FunctionDecl)
    requires
        is_runnable(d@),
        !d@.has_generic_params,
    ensures
        generated_segments(ModuleItem::FreeFunction(d)) is Some,
        ({
            let s = generated_segments(ModuleItem::FreeFunction(d))->0;
            let n = d@.param_count as int;
            &&& s.len() == 2 * n + 10
            &&& s.subrange(0, 3) == header(d@.name)
            &&& forall|i: nat| i < n ==> s[3 + i as int] == #[trigger] deserialize_stmt(i)
            &&& s[3 + n] == input_consumed_stmt()
            &&& s.subrange(4 + n, 7 + n) == call_open(d@.name)
            &&& forall|i: nat| i < n ==> s[7 + n + i] == #[trigger] call_arg(i)
            &&& s[7 + 2 * n] == call_close()
            &&& s[8 + 2 * n] == serialize_stmt(d@.has_return_clause)
            &&& s[9 + 2 * n] == wrapper_end()
        }),
{
    let s = wrapper_segments(d@);
    let n = d@.param_count as int;
    let reads = Seq::new(d@.param_count, |i: int| deserialize_stmt(i as nat));
    let args = Seq::new(d@.param_count, |i: int| call_arg(i as nat));
    assert(s.subrange(0, 3) =~= header(d@.name));
    assert(s.subrange(4 + n, 7 + n) =~= call_open(d@.name));
    assert forall|i: nat| i < n implies s[3 + i as int] == #[trigger] deserialize_stmt(i) by {
        assert(s[3 + i as int] == reads[i as int]);
    }
    assert forall|i: nat| i < n implies s[7 + n + i] == #[trigger] call_arg(i) by {
        assert(s[7 + n + i as int] == args[i as int]);
    }
}

/// A runnable declaration with generic parameters gets no wrapper and
/// exactly one diagnostic, which says that generic parameters are not allowed.
pub proof fn lemma_generic_declaration_rejected(d: FunctionDecl)
    requires
        is_runnable(d@),
        d@.has_generic_params,
    ensures
        generated_segments(ModuleItem::FreeFunction(d)) is None,
        generation_diagnostics(ModuleItem::FreeFunction(d)) == seq![
            diag(DiagnosticKind::GenericParamsNotAllowed, Anchor::GenericParams),
        ],
{
}

/// Expanding two declarations that read the same gives the same text, the
/// same mappings and the same diagnostics.
pub proof fn lemma_generation_deterministic(a: FunctionDecl, b: FunctionDecl)
    requires
        a@ == b@,
    ensures
        generated_segments(ModuleItem::FreeFunction(a)) == generated_segments(ModuleItem::FreeFunction(b)),
        generation_diagnostics(ModuleItem::FreeFunction(a)) == generation_diagnostics(
            ModuleItem::FreeFunction(b),
        ),
{
}

} // verus!
