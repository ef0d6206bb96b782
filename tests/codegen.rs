use runnable_plugin::codegen::{
    FunctionDecl, ModuleItem, Origin, ParamDecl, PluginResult, RunnablePlugin, Segment,
};
use runnable_plugin::diagnostics::{Anchor, DiagnosticKind};
use runnable_plugin::text::decimal_string;

fn decl(name: &str, params: &[&str], has_return_clause: bool, generic: bool, attrs: &[&str]) -> FunctionDecl {
    FunctionDecl {
        name: name.to_string(),
        params: params.iter().map(|p| ParamDecl { name: p.to_string() }).collect(),
        has_return_clause,
        has_generic_params: generic,
        attributes: attrs.iter().map(|a| a.to_string()).collect(),
    }
}

fn expand(d: FunctionDecl) -> PluginResult {
    RunnablePlugin.generate_code(&ModuleItem::FreeFunction(d))
}

fn text_of(segments: &[Segment]) -> String {
    segments.iter().map(|s| s.text.as_str()).collect()
}

const HEADER_ATTRS: &str = "\n#[implicit_precedence(core::pedersen::Pedersen, core::RangeCheck, \
core::integer::Bitwise, core::ec::EcOp, core::poseidon::Poseidon, core::circuit::RangeCheck96, \
core::circuit::AddMod, core::circuit::MulMod)]\n#[runnable_raw]\n";

#[test]
fn add_example_wrapper_text() {
    let r = expand(decl("add", &["a", "b"], true, false, &["runnable"]));
    assert!(r.diagnostics.is_empty());
    assert!(!r.remove_original_item);
    let unit = r.code.expect("a wrapper");
    assert_eq!(unit.name, "runnable");
    let expected = [
        HEADER_ATTRS,
        "fn __runnable_wrapper__add(mut input: Span<felt252>, ref output: Array<felt252>) {\n\n",
        "    let __param__runnable_wrapper__0 = Serde::deserialize(ref input).expect('Failed to deserialize param #0');\n",
        "    let __param__runnable_wrapper__1 = Serde::deserialize(ref input).expect('Failed to deserialize param #1');\n",
        "    assert(core::array::SpanTrait::is_empty(input), 'Input too long for params.');\n",
        "    let __result = @add(\n",
        "        __param__runnable_wrapper__0,\n",
        "        __param__runnable_wrapper__1,\n",
        "    );\n",
        "    Serde::serialize(__result, ref output);\n",
        "}\n",
    ]
    .concat();
    assert_eq!(text_of(&unit.segments), expected);
}

#[test]
fn add_example_mappings() {
    let r = expand(decl("add", &["a", "b"], true, false, &["runnable"]));
    let unit = r.code.unwrap();
    let origins: Vec<Origin> = unit.segments.iter().map(|s| s.origin).collect();
    assert_eq!(
        origins,
        vec![
            Origin::Declaration,
            Origin::FunctionName,
            Origin::Declaration,
            Origin::Param(0),
            Origin::Param(1),
            Origin::Declaration,
            Origin::Declaration,
            Origin::FunctionName,
            Origin::Declaration,
            Origin::Param(0),
            Origin::Param(1),
            Origin::Declaration,
            Origin::ReturnTypeClause,
            Origin::Declaration,
        ]
    );
    assert_eq!(unit.segments[1].text, "add");
    assert_eq!(unit.segments[7].text, "add");
}

#[test]
fn zero_params_wrapper() {
    let r = expand(decl("main", &[], false, false, &["runnable"]));
    let unit = r.code.unwrap();
    assert_eq!(unit.segments.len(), 10);
    let text = text_of(&unit.segments);
    assert!(!text.contains("Serde::deserialize"));
    assert_eq!(text.matches("assert(core::array::SpanTrait::is_empty(input)").count(), 1);
    assert!(text.contains("let __result = @main(\n    );\n"));
    assert_eq!(text.matches("Serde::serialize(__result, ref output);").count(), 1);
    // Without a return-type clause the result statement maps to the declaration.
    assert_eq!(unit.segments[8].origin, Origin::Declaration);
}

#[test]
fn many_params_in_order() {
    let names: Vec<String> = (0..12).map(|i| format!("p{i}")).collect();
    let refs: Vec<&str> = names.iter().map(|s| s.as_str()).collect();
    let r = expand(decl("f", &refs, false, false, &["inline", "runnable"]));
    let unit = r.code.unwrap();
    assert_eq!(unit.segments.len(), 2 * 12 + 10);
    for i in 0..12 {
        let read = &unit.segments[3 + i];
        assert_eq!(read.origin, Origin::Param(i));
        assert_eq!(
            read.text,
            format!(
                "    let __param__runnable_wrapper__{i} = Serde::deserialize(ref input).expect('Failed to deserialize param #{i}');\n"
            )
        );
        let arg = &unit.segments[7 + 12 + i];
        assert_eq!(arg.origin, Origin::Param(i));
        assert_eq!(arg.text, format!("        __param__runnable_wrapper__{i},\n"));
    }
}

#[test]
fn generic_function_rejected() {
    let r = expand(decl("bad", &["x"], false, true, &["runnable"]));
    assert!(r.code.is_none());
    assert!(!r.remove_original_item);
    assert_eq!(r.diagnostics.len(), 1);
    assert_eq!(r.diagnostics[0].kind, DiagnosticKind::GenericParamsNotAllowed);
    assert_eq!(r.diagnostics[0].anchor, Anchor::GenericParams);
    assert_eq!(r.diagnostics[0].message, "Runnable functions cannot have generic params.");
}

#[test]
fn unmarked_function_ignored() {
    let r = expand(decl("g", &["x"], true, true, &["runnable_raw", "inline"]));
    assert!(r.code.is_none());
    assert!(r.diagnostics.is_empty());
    assert!(!r.remove_original_item);
}

#[test]
fn other_item_ignored() {
    let r = RunnablePlugin.generate_code(&ModuleItem::Other);
    assert!(r.code.is_none());
    assert!(r.diagnostics.is_empty());
}

#[test]
fn generation_is_deterministic() {
    let a = expand(decl("add", &["a", "b"], true, false, &["runnable"]));
    let b = expand(decl("add", &["a", "b"], true, false, &["runnable"]));
    let (ua, ub) = (a.code.unwrap(), b.code.unwrap());
    assert_eq!(ua.name, ub.name);
    assert_eq!(ua.segments.len(), ub.segments.len());
    for (x, y) in ua.segments.iter().zip(ub.segments.iter()) {
        assert_eq!(x.text, y.text);
        assert_eq!(x.origin, y.origin);
    }
    let c = expand(decl("bad", &["x"], false, true, &["runnable"]));
    let d = expand(decl("bad", &["x"], false, true, &["runnable"]));
    assert_eq!(c.diagnostics.len(), d.diagnostics.len());
    assert_eq!(c.diagnostics[0].message, d.diagnostics[0].message);
}

#[test]
fn precedence_list_joined() {
    let r = expand(decl("f", &[], false, false, &["runnable"]));
    let unit = r.code.unwrap();
    assert!(unit.segments[0].text.starts_with(HEADER_ATTRS));
    assert_eq!(unit.segments[0].text, format!("{HEADER_ATTRS}fn __runnable_wrapper__"));
}

#[test]
fn declared_and_executable_attributes() {
    assert_eq!(RunnablePlugin.declared_attributes(), vec!["runnable".to_string(), "runnable_raw".to_string()]);
    assert_eq!(RunnablePlugin.executable_attributes(), vec!["runnable_raw".to_string()]);
}

#[test]
fn decimal_values() {
    assert_eq!(decimal_string(0), "0");
    assert_eq!(decimal_string(7), "7");
    assert_eq!(decimal_string(10), "10");
    assert_eq!(decimal_string(1234), "1234");
    assert_eq!(decimal_string(usize::MAX), usize::MAX.to_string());
}
