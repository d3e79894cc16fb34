use racr::Access;
use racr::DeviceDefinition;
use racr::FieldInstance;
use racr::FileContent;
use racr::Ident;
use racr::Item;
use racr::Module;
use racr::Path;
use racr::PeripheralDefinition;
use racr::PeripheralInstance;
use racr::RegisterDefinition;
use racr::RegisterInstance;
use racr::RegisterSlot;
use racr::RegisterType;
use racr::Use;
use racr::UseTree;

#[test]
fn single_segment_path_renders_token() {
    let ident = Ident::from("token_name");
    let path: Path = ident.into();

    assert_eq!(path.render(), "token_name");
}

#[test]
fn rendering_is_repeatable() {
    let device = DeviceDefinition {
        ident: Ident::from("Chip"),
        description: Some(String::from(" a chip")),
        peripherals: vec![
            PeripheralInstance {
                ident: Ident::from("uart0"),
                path: Ident::from("Uart").into(),
                address: 0x4000_1000,
            },
            PeripheralInstance {
                ident: Ident::from("uart1"),
                path: Ident::from("Uart").into(),
                address: 0x4000_2000,
            },
        ],
    };

    assert_eq!(device.render(), device.render());
}

#[test]
fn use_rename_renders_as_clause() {
    let used = Use {
        tree: UseTree::Rename { ident: "foo".into(), rename: "bar".into() },
    };

    assert_eq!(used.render(), "use foo as bar;");
}

#[test]
fn module_with_empty_body_keeps_braces() {
    let module = Module { ident: "foo".into(), content: Some(vec![]) };

    assert_eq!(module.render(), "mod foo {\n}");
}

#[test]
fn use_statement_is_indented() {
    let used = Use { tree: UseTree::Ident("foo".into()) };

    let mut out = String::new();
    used.write_indented(&mut out, 2);

    assert_eq!(out, "        use foo;");
}

#[test]
fn register_exact_text() {
    let reg = RegisterDefinition {
        access: Access::ReadOnly,
        ident: Ident::from("Status"),
        description: Some(String::from(" status flags")),
        size: 8,
        reset_value: Some(0xab),
        fields: vec![
            FieldInstance {
                ident: Ident::from("ready"),
                description: None,
                bit_start: 0,
                bit_end: 0,
                access: Some(Access::ReadOnly),
            },
            FieldInstance {
                ident: Ident::from("code"),
                description: None,
                bit_start: 1,
                bit_end: 7,
                access: None,
            },
        ],
    };

    assert_eq!(
        reg.render(),
        "/// status flags\nReadOnly register[8] Status = 0xab {\n    ReadOnly ready[0..0],\n    code[1..7],\n}"
    );
}

#[test]
fn register_without_description_or_reset_omits_clauses() {
    let reg = RegisterDefinition {
        access: Access::WriteOnly,
        ident: Ident::from("Cmd"),
        description: None,
        size: 16,
        reset_value: None,
        fields: vec![],
    };

    assert_eq!(reg.render(), "WriteOnly register[16] Cmd {\n}");
}

#[test]
fn hex_is_lowercase_with_single_zero() {
    let mut low = String::new();
    RegisterSlot::Single {
        instance: RegisterInstance {
            ident: Ident::from("r"),
            ty: RegisterType::Single { path: Ident::from("R").into() },
        },
        offset: 0,
    }
    .write(&mut low);
    assert_eq!(low, "r: R @ 0x0");

    let mut high = String::new();
    RegisterSlot::Single {
        instance: RegisterInstance {
            ident: Ident::from("r"),
            ty: RegisterType::Single { path: Ident::from("R").into() },
        },
        offset: 0xdead_beef,
    }
    .write(&mut high);
    assert_eq!(high, "r: R @ 0xdeadbeef");
}

#[test]
fn array_type_renders_path_and_count() {
    let mut out = String::new();
    RegisterType::Array { path: Ident::from("Data").into(), size: 12 }.write(&mut out);

    assert_eq!(out, "[Data; 12]");
}

#[test]
fn overloaded_slot_renders_alternatives() {
    let mut out = String::new();
    RegisterSlot::Overloaded {
        alternatives: vec![
            RegisterInstance {
                ident: Ident::from("rx"),
                ty: RegisterType::Single { path: Ident::from("Rx").into() },
            },
            RegisterInstance {
                ident: Ident::from("tx"),
                ty: RegisterType::Single { path: Ident::from("Tx").into() },
            },
        ],
        offset: 0x1c,
    }
    .write(&mut out);

    assert_eq!(out, "(rx: Rx | tx: Tx) @ 0x1c");
}

#[test]
fn device_block_uses_peripheral_keyword() {
    let device = DeviceDefinition {
        ident: Ident::from("Soc"),
        description: None,
        peripherals: vec![],
    };

    assert_eq!(device.render(), "peripheral Soc {\n}");
}

#[test]
fn nested_module_indents_items() {
    let module = Module {
        ident: "hal".into(),
        content: Some(vec![Item::Use(Use {
            tree: UseTree::Path {
                path_segment: "regs".into(),
                sub_tree: Box::new(UseTree::Ident("Uart".into())),
            },
        })]),
    };

    assert_eq!(module.render(), "mod hal {\n    use regs::Uart;\n}");
}

#[test]
fn empty_path_renders_nothing() {
    let path = Path { segments: vec![] };

    assert_eq!(path.render(), "");
}

#[test]
fn field_bit_range_is_decimal() {
    let mut out = String::new();
    FieldInstance {
        ident: Ident::from("data"),
        description: None,
        bit_start: 10,
        bit_end: 31,
        access: None,
    }
    .write(&mut out);

    assert_eq!(out, "data[10..31]");
}
