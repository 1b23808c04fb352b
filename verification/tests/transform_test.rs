use swc_plugin_fluxel::ast::{
    ClassDecl, DefaultExportBinding, Expr, Ident, Module, ModuleItem, Property, Stmt,
};
use swc_plugin_fluxel::synth::{
    call, call_one, call_two, class_declaration, class_export, class_ident, constructor_body,
    copy_ident, member, object, reference, registration,
};
use swc_plugin_fluxel::transform::{find_target, splice_three, transform};

fn scoped(name: &str, scope: u32) -> Ident {
    Ident { name: name.to_string(), scope }
}

fn plain(name: &str) -> Ident {
    scoped(name, 0)
}

fn name_ref(name: &str) -> Expr {
    Expr::Ident(plain(name))
}

fn expected_body(component: &Ident) -> Vec<Stmt> {
    vec![
        Stmt::Const("__props".to_string(), Expr::Object(vec![])),
        Stmt::Const(
            "_n".to_string(),
            Expr::Call(Box::new(Expr::Ident(component.clone())), vec![name_ref("__props")]),
        ),
        Stmt::Expr(Expr::Call(
            Box::new(Expr::Member(
                Box::new(Expr::Call(
                    Box::new(Expr::Member(Box::new(Expr::This), "attachShadow".to_string())),
                    vec![Expr::Object(vec![Property {
                        key: "mode".to_string(),
                        value: Expr::Str("open".to_string()),
                    }])],
                )),
                "appendChild".to_string(),
            )),
            vec![name_ref("_n")],
        )),
    ]
}

fn expected_class(component: &Ident, class: &str) -> ModuleItem {
    ModuleItem::Class(ClassDecl {
        ident: plain(class),
        constructor: expected_body(component),
    })
}

fn expected_registration(tag: &str, class: &str) -> ModuleItem {
    ModuleItem::Stmt(Stmt::Expr(Expr::Call(
        Box::new(Expr::Member(Box::new(name_ref("customElements")), "define".to_string())),
        vec![Expr::Str(tag.to_string()), name_ref(class)],
    )))
}

fn expected_export(class: &str) -> ModuleItem {
    ModuleItem::DefaultExport(DefaultExportBinding::Identifier(plain(class)))
}

fn function_export(name: &str, decl: u64) -> ModuleItem {
    ModuleItem::DefaultExport(DefaultExportBinding::Function(Some(plain(name)), decl))
}

#[test]
fn module_without_default_export_is_unchanged() {
    let mut m = Module {
        body: vec![
            ModuleItem::Opaque(0),
            ModuleItem::Stmt(Stmt::Expr(name_ref("foo"))),
            ModuleItem::Opaque(2),
        ],
    };
    transform(&mut m);
    assert_eq!(
        m,
        Module {
            body: vec![
                ModuleItem::Opaque(0),
                ModuleItem::Stmt(Stmt::Expr(name_ref("foo"))),
                ModuleItem::Opaque(2),
            ],
        }
    );
    assert_eq!(find_target(&m), None);
}

#[test]
fn empty_module_is_unchanged() {
    let mut m = Module { body: vec![] };
    transform(&mut m);
    assert_eq!(m, Module { body: vec![] });
}

#[test]
fn default_exported_function_becomes_an_element() {
    let mut m = Module { body: vec![function_export("Counter", 0)] };
    transform(&mut m);
    assert_eq!(
        m.body,
        vec![
            expected_class(&plain("Counter"), "CounterElement"),
            expected_registration("fluxel-counter", "CounterElement"),
            expected_export("CounterElement"),
        ]
    );
}

#[test]
fn default_exported_identifier_becomes_an_element() {
    let mut m = Module {
        body: vec![
            ModuleItem::Opaque(0),
            ModuleItem::DefaultExport(DefaultExportBinding::Identifier(plain("myButton"))),
        ],
    };
    transform(&mut m);
    assert_eq!(
        m.body,
        vec![
            ModuleItem::Opaque(0),
            expected_class(&plain("myButton"), "myButtonElement"),
            expected_registration("fluxel-my-button", "myButtonElement"),
            expected_export("myButtonElement"),
        ]
    );
}

#[test]
fn other_items_keep_their_order_and_the_module_grows_by_two() {
    let mut m = Module {
        body: vec![
            ModuleItem::Opaque(10),
            ModuleItem::Opaque(11),
            function_export("Foo", 12),
            ModuleItem::Opaque(13),
            ModuleItem::Stmt(Stmt::Expr(name_ref("tail"))),
        ],
    };
    transform(&mut m);
    assert_eq!(m.body.len(), 7);
    assert_eq!(m.body[0], ModuleItem::Opaque(10));
    assert_eq!(m.body[1], ModuleItem::Opaque(11));
    assert_eq!(m.body[2], expected_class(&plain("Foo"), "FooElement"));
    assert_eq!(m.body[3], expected_registration("fluxel-foo", "FooElement"));
    assert_eq!(m.body[4], expected_export("FooElement"));
    assert_eq!(m.body[5], ModuleItem::Opaque(13));
    assert_eq!(m.body[6], ModuleItem::Stmt(Stmt::Expr(name_ref("tail"))));
}

#[test]
fn new_default_export_names_the_class_not_the_component() {
    let mut m = Module { body: vec![function_export("Button", 0), ModuleItem::Opaque(1)] };
    transform(&mut m);
    assert_eq!(
        m.body[2],
        ModuleItem::DefaultExport(DefaultExportBinding::Identifier(plain("ButtonElement")))
    );
    assert_ne!(
        m.body[2],
        ModuleItem::DefaultExport(DefaultExportBinding::Identifier(plain("Button")))
    );
}

#[test]
fn registration_takes_the_tag_then_the_class() {
    let mut m = Module { body: vec![function_export("Button", 0)] };
    transform(&mut m);
    match &m.body[1] {
        ModuleItem::Stmt(Stmt::Expr(Expr::Call(callee, args))) => {
            assert_eq!(
                **callee,
                Expr::Member(Box::new(name_ref("customElements")), "define".to_string())
            );
            assert_eq!(args.len(), 2);
            assert_eq!(args[0], Expr::Str("fluxel-button".to_string()));
            assert_eq!(args[1], Expr::Ident(plain("ButtonElement")));
            assert_ne!(args[1], Expr::Str("ButtonElement".to_string()));
        }
        other => panic!("no registration call: {:?}", other),
    }
}

#[test]
fn second_run_wraps_the_generated_class() {
    let mut m = Module { body: vec![ModuleItem::Opaque(0), function_export("N", 1)] };
    transform(&mut m);
    assert_eq!(m.body.len(), 4);
    transform(&mut m);
    assert_eq!(
        m.body,
        vec![
            ModuleItem::Opaque(0),
            expected_class(&plain("N"), "NElement"),
            expected_registration("fluxel-n", "NElement"),
            expected_class(&plain("NElement"), "NElementElement"),
            expected_registration("fluxel-n-element", "NElementElement"),
            expected_export("NElementElement"),
        ]
    );
}

#[test]
fn last_default_export_wins() {
    let mut m = Module {
        body: vec![
            function_export("First", 0),
            ModuleItem::Opaque(1),
            ModuleItem::DefaultExport(DefaultExportBinding::Identifier(plain("Second"))),
        ],
    };
    assert_eq!(find_target(&m), Some((2, plain("Second"))));
    transform(&mut m);
    assert_eq!(
        m.body,
        vec![
            function_export("First", 0),
            ModuleItem::Opaque(1),
            expected_class(&plain("Second"), "SecondElement"),
            expected_registration("fluxel-second", "SecondElement"),
            expected_export("SecondElement"),
        ]
    );
}

#[test]
fn last_default_export_without_component_leaves_the_module() {
    let mut m = Module {
        body: vec![
            function_export("First", 0),
            ModuleItem::DefaultExport(DefaultExportBinding::Other(1)),
        ],
    };
    assert_eq!(find_target(&m), None);
    transform(&mut m);
    assert_eq!(
        m.body,
        vec![
            function_export("First", 0),
            ModuleItem::DefaultExport(DefaultExportBinding::Other(1)),
        ]
    );
}

#[test]
fn anonymous_function_is_not_a_component() {
    let mut m = Module {
        body: vec![
            ModuleItem::Opaque(0),
            ModuleItem::DefaultExport(DefaultExportBinding::Function(None, 1)),
        ],
    };
    assert_eq!(find_target(&m), None);
    transform(&mut m);
    assert_eq!(
        m.body,
        vec![
            ModuleItem::Opaque(0),
            ModuleItem::DefaultExport(DefaultExportBinding::Function(None, 1)),
        ]
    );
}

#[test]
fn other_default_export_is_not_a_component() {
    let mut m = Module { body: vec![ModuleItem::DefaultExport(DefaultExportBinding::Other(5))] };
    transform(&mut m);
    assert_eq!(m.body, vec![ModuleItem::DefaultExport(DefaultExportBinding::Other(5))]);
}

#[test]
fn component_call_keeps_the_scope_and_new_names_have_none() {
    let mut m = Module {
        body: vec![ModuleItem::DefaultExport(DefaultExportBinding::Identifier(scoped("App", 3)))],
    };
    assert_eq!(find_target(&m), Some((0, scoped("App", 3))));
    transform(&mut m);
    assert_eq!(
        m.body,
        vec![
            expected_class(&scoped("App", 3), "AppElement"),
            expected_registration("fluxel-app", "AppElement"),
            expected_export("AppElement"),
        ]
    );
}

#[test]
fn find_target_gives_place_and_component() {
    let m = Module {
        body: vec![ModuleItem::Opaque(0), ModuleItem::Opaque(1), function_export("Foo", 2)],
    };
    assert_eq!(find_target(&m), Some((2, plain("Foo"))));
    assert_eq!(find_target(&Module { body: vec![] }), None);
}

#[test]
fn splice_three_replaces_one_item() {
    let mut items = vec![ModuleItem::Opaque(0), ModuleItem::Opaque(1), ModuleItem::Opaque(2)];
    splice_three(
        &mut items,
        1,
        ModuleItem::Opaque(7),
        ModuleItem::Opaque(8),
        ModuleItem::Opaque(9),
    );
    assert_eq!(
        items,
        vec![
            ModuleItem::Opaque(0),
            ModuleItem::Opaque(7),
            ModuleItem::Opaque(8),
            ModuleItem::Opaque(9),
            ModuleItem::Opaque(2),
        ]
    );
}

#[test]
fn splice_three_at_both_ends() {
    let mut items = vec![ModuleItem::Opaque(0), ModuleItem::Opaque(1)];
    splice_three(
        &mut items,
        0,
        ModuleItem::Opaque(7),
        ModuleItem::Opaque(8),
        ModuleItem::Opaque(9),
    );
    assert_eq!(
        items,
        vec![
            ModuleItem::Opaque(7),
            ModuleItem::Opaque(8),
            ModuleItem::Opaque(9),
            ModuleItem::Opaque(1),
        ]
    );
    splice_three(
        &mut items,
        3,
        ModuleItem::Opaque(4),
        ModuleItem::Opaque(5),
        ModuleItem::Opaque(6),
    );
    assert_eq!(
        items,
        vec![
            ModuleItem::Opaque(7),
            ModuleItem::Opaque(8),
            ModuleItem::Opaque(9),
            ModuleItem::Opaque(4),
            ModuleItem::Opaque(5),
            ModuleItem::Opaque(6),
        ]
    );
}

#[test]
fn constructor_body_has_its_fixed_order() {
    assert_eq!(constructor_body(&plain("Counter")), expected_body(&plain("Counter")));
    assert_eq!(constructor_body(&scoped("Counter", 9)), expected_body(&scoped("Counter", 9)));
}

#[test]
fn class_declaration_holds_name_and_constructor() {
    assert_eq!(
        ModuleItem::Class(class_declaration(&plain("Counter"))),
        expected_class(&plain("Counter"), "CounterElement")
    );
}

#[test]
fn class_ident_and_export_name_the_class() {
    assert_eq!(class_ident(&scoped("Foo", 4)), plain("FooElement"));
    assert_eq!(
        ModuleItem::DefaultExport(class_export(&scoped("Foo", 4))),
        expected_export("FooElement")
    );
}

#[test]
fn registration_of_a_component() {
    assert_eq!(
        ModuleItem::Stmt(registration(&plain("myButton"))),
        expected_registration("fluxel-my-button", "myButtonElement")
    );
}

#[test]
fn small_builders_build_what_they_say() {
    assert_eq!(reference("x"), name_ref("x"));
    assert_eq!(copy_ident(&scoped("x", 2)), scoped("x", 2));
    assert_eq!(
        member(Expr::This, "f"),
        Expr::Member(Box::new(Expr::This), "f".to_string())
    );
    assert_eq!(object(vec![]), Expr::Object(vec![]));
    assert_eq!(call(name_ref("f"), vec![]), Expr::Call(Box::new(name_ref("f")), vec![]));
    assert_eq!(
        call_one(name_ref("f"), name_ref("a")),
        Expr::Call(Box::new(name_ref("f")), vec![name_ref("a")])
    );
    assert_eq!(
        call_two(name_ref("f"), name_ref("a"), Expr::Str("b".to_string())),
        Expr::Call(Box::new(name_ref("f")), vec![name_ref("a"), Expr::Str("b".to_string())])
    );
}
