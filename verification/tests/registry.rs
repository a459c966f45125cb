use candle_kernels::registry::{handles, kernel_names, module_index, UsageError, ALL_IDS};
use candle_kernels::{Id, Module, ModuleData};

static BINARY: [u8; 6] = [0x7f, 0x45, 0x4c, 0x46, 0x00, 0xff];

#[test]
fn indices_follow_catalog_order() {
    assert_eq!(ALL_IDS.len(), 11);
    for (i, id) in ALL_IDS.iter().enumerate() {
        assert_eq!(module_index(*id), i);
    }
}

#[test]
fn each_identifier_has_its_index() {
    assert_eq!(module_index(Id::Affine), 0);
    assert_eq!(module_index(Id::Binary), 1);
    assert_eq!(module_index(Id::Cast), 2);
    assert_eq!(module_index(Id::Conv), 3);
    assert_eq!(module_index(Id::Fill), 4);
    assert_eq!(module_index(Id::Indexing), 5);
    assert_eq!(module_index(Id::Quantized), 6);
    assert_eq!(module_index(Id::Reduce), 7);
    assert_eq!(module_index(Id::Sort), 8);
    assert_eq!(module_index(Id::Ternary), 9);
    assert_eq!(module_index(Id::Unary), 10);
}

#[test]
fn kernel_names_follow_catalog_order() {
    let names = kernel_names();
    assert_eq!(
        names,
        vec![
            "affine", "binary", "cast", "conv", "fill", "indexing", "quantized", "reduce", "sort",
            "ternary", "unary"
        ]
    );
    for (i, id) in ALL_IDS.iter().enumerate() {
        assert_eq!(id.name(), names[i]);
    }
}

#[test]
fn index_does_not_depend_on_payload_shape() {
    let text = Module::new(Id::Reduce, ModuleData::Ptx(".version 7.0"));
    let binary = Module::new(Id::Reduce, ModuleData::Cubin(&BINARY));
    assert_eq!(text.index(), 7);
    assert_eq!(binary.index(), 7);
}

#[test]
fn bytes_of_a_binary_module_are_the_binary() {
    let m = Module::new(Id::Cast, ModuleData::Cubin(&BINARY));
    assert_eq!(m.as_bytes(), &BINARY[..]);
    assert!(matches!(m.data(), ModuleData::Cubin(b) if *b == &BINARY[..]));
}

#[test]
fn bytes_of_a_text_module_are_its_encoding() {
    let m = Module::new(Id::Fill, ModuleData::Ptx(".target sm_80 // \u{e9}"));
    assert_eq!(m.as_bytes(), ".target sm_80 // \u{e9}".as_bytes());
    let short = Module::new(Id::Fill, ModuleData::Ptx("a\u{e9}\n"));
    assert_eq!(short.as_bytes(), &[0x61, 0xc3, 0xa9, 0x0a]);
    let empty = Module::new(Id::Fill, ModuleData::Ptx(""));
    assert!(empty.as_bytes().is_empty());
}

#[test]
fn text_of_a_text_module() {
    let m = Module::new(Id::Unary, ModuleData::Ptx(".version 8.3\n"));
    assert_eq!(m.ptx(), ".version 8.3\n");
    assert_eq!(m.checked_ptx(), Ok(".version 8.3\n"));
    assert!(matches!(m.data(), ModuleData::Ptx(".version 8.3\n")));
}

#[test]
fn text_of_a_binary_module_is_a_usage_error() {
    let m = Module::new(Id::Unary, ModuleData::Cubin(&BINARY));
    assert_eq!(m.checked_ptx(), Err(UsageError));
    let empty = Module::new(Id::Unary, ModuleData::Cubin(&[]));
    assert_eq!(empty.checked_ptx(), Err(UsageError));
    assert_eq!(
        UsageError.message(),
        "Module contains CUBIN data, not PTX.\nUse Module::as_bytes() instead for compatibility with both formats."
    );
}

#[test]
fn handles_pair_each_index_with_its_payload() {
    let texts = [
        "a", "b", "c", "d", "e", "f", "g", "h", "i", "j", "k",
    ];
    let payloads = [
        ModuleData::Ptx(texts[0]),
        ModuleData::Ptx(texts[1]),
        ModuleData::Ptx(texts[2]),
        ModuleData::Ptx(texts[3]),
        ModuleData::Ptx(texts[4]),
        ModuleData::Ptx(texts[5]),
        ModuleData::Ptx(texts[6]),
        ModuleData::Ptx(texts[7]),
        ModuleData::Ptx(texts[8]),
        ModuleData::Ptx(texts[9]),
        ModuleData::Ptx(texts[10]),
    ];
    let modules = handles(&payloads);
    assert_eq!(modules.len(), 11);
    for (i, m) in modules.iter().enumerate() {
        assert_eq!(m.index(), i);
        assert_eq!(m.ptx(), texts[i]);
    }
}
