//! The binding file of the binary format: one named constant for each
//! kernel unit, which embeds the binary compiled from it.

use vstd::prelude::*;

use crate::text::{to_upper, upper, views};

verus! {

/// Name of the constant that holds the module of kernel unit `unit`: the
/// unit's name in upper case.
pub open spec fn binding_name(unit: Seq<char>) -> Seq<char> {
    upper(unit)
}

/// The line that declares the constant of kernel unit `unit`. The constant
/// embeds the file of that unit's name in the directory for build output.
pub open spec fn binding_line(unit: Seq<char>) -> Seq<char> {
    "pub const "@ + binding_name(unit) + ": &[u8] = include_bytes!(concat!(env!(\"OUT_DIR\"), \"/"@
        + unit + ".cubin\"));\n"@
}

/// The lines of the binding file for `catalog`: the line of each kernel
/// unit, in catalog order.
pub open spec fn binding_lines(catalog: Seq<Seq<char>>) -> Seq<Seq<char>> {
    Seq::new(catalog.len(), |i: int| binding_line(catalog[i]))
}

/// The binding file for `catalog`: its lines one after the other, and
/// nothing else.
pub open spec fn bindings_text(catalog: Seq<Seq<char>>) -> Seq<char> {
    binding_lines(catalog).flatten()
}

/// The names of the constants for `catalog`, in catalog order.
pub open spec fn binding_names(catalog: Seq<Seq<char>>) -> Seq<Seq<char>> {
    Seq::new(catalog.len(), |i: int| binding_name(catalog[i]))
}

/// Name of the constant of kernel unit `unit`.
pub fn constant_name(unit: &str) -> (name: String)
    ensures
        name@ == binding_name(unit@),
{
    to_upper(unit)
}

/// The names of the constants for `catalog`: one for each kernel unit, in
/// catalog order.
pub fn constant_names(catalog: &Vec<String>) -> (names: Vec<String>)
    ensures
        views(names@) == binding_names(views(catalog@)),
        names@.len() == catalog@.len(),
{
    let mut names: Vec<String> = Vec::new();
    let mut i: usize = 0;
    while i < catalog.len()
        invariant
            i <= catalog.len(),
            views(names@) == binding_names(views(catalog@)).take(i as int),
        decreases catalog.len() - i,
    {
        let name = constant_name(catalog[i].as_str());
        assert(views(names@.push(name)) == views(names@).push(name@));
        names.push(name);
        i += 1;
    }
    assert(binding_names(views(catalog@)).take(i as int) == binding_names(views(catalog@)));
    assert(views(names@).len() == names@.len());
    names
}

/// Writes the binding file for `catalog`.
pub fn generate(catalog: &Vec<String>) -> (text: String)
    ensures
        text@ == bindings_text(views(catalog@)),
{
    let ghost lines = binding_lines(views(catalog@));
    let mut text = String::new();
    let mut i: usize = 0;
    assert(lines.take(0).flatten() == Seq::<char>::empty());
    while i < catalog.len()
        invariant
            i <= catalog.len(),
            lines == binding_lines(views(catalog@)),
            text@ == lines.take(i as int).flatten(),
        decreases catalog.len() - i,
    {
        let unit = catalog[i].as_str();
        let name = constant_name(unit);
        let mut line = String::from_str("pub const ");
        line.append(name.as_str());
        line.append(": &[u8] = include_bytes!(concat!(env!(\"OUT_DIR\"), \"/");
        line.append(unit);
        line.append(".cubin\"));\n");
        proof {
            assert(lines.take(i + 1) == lines.take(i as int).push(line@));
            lines.take(i as int).lemma_flatten_push(line@);
        }
        text.append(line.as_str());
        i += 1;
    }
    assert(lines.take(i as int) == lines);
    text
}

} // verus!
