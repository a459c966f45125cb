use candle_kernels::bindings::{constant_name, constant_names, generate};
use candle_kernels::registry::kernel_names;

fn strings(items: &[&str]) -> Vec<String> {
    items.iter().map(|s| s.to_string()).collect()
}

#[test]
fn constant_is_named_in_upper_case() {
    assert_eq!(constant_name("affine"), "AFFINE");
    assert_eq!(constant_name("Binary"), "BINARY");
    assert_eq!(constant_name("conv2d_x"), "CONV2D_X");
    assert_eq!(constant_name(""), "");
}

#[test]
fn one_constant_for_each_unit_in_order() {
    assert_eq!(constant_names(&strings(&["affine", "binary"])), vec!["AFFINE", "BINARY"]);
    assert!(constant_names(&Vec::new()).is_empty());
    assert_eq!(
        constant_names(&kernel_names()),
        vec![
            "AFFINE", "BINARY", "CAST", "CONV", "FILL", "INDEXING", "QUANTIZED", "REDUCE", "SORT",
            "TERNARY", "UNARY"
        ]
    );
}

#[test]
fn one_line_for_each_unit_in_order() {
    assert_eq!(
        generate(&strings(&["affine", "binary"])),
        "pub const AFFINE: &[u8] = include_bytes!(concat!(env!(\"OUT_DIR\"), \"/affine.cubin\"));\n\
         pub const BINARY: &[u8] = include_bytes!(concat!(env!(\"OUT_DIR\"), \"/binary.cubin\"));\n"
    );
}

#[test]
fn bindings_of_one_unit_and_of_none() {
    assert_eq!(
        generate(&strings(&["sort"])),
        "pub const SORT: &[u8] = include_bytes!(concat!(env!(\"OUT_DIR\"), \"/sort.cubin\"));\n"
    );
    assert_eq!(generate(&Vec::new()), "");
}

#[test]
fn bindings_of_the_catalog() {
    let names = kernel_names();
    let text = generate(&names);
    let lines: Vec<&str> = text.lines().collect();
    assert_eq!(lines.len(), 11);
    for (i, line) in lines.iter().enumerate() {
        assert_eq!(
            *line,
            format!(
                "pub const {}: &[u8] = include_bytes!(concat!(env!(\"OUT_DIR\"), \"/{}.cubin\"));",
                names[i].to_uppercase(),
                names[i]
            )
        );
    }
    assert!(text.ends_with('\n'));
}
