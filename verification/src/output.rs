use vstd::prelude::*;

verus! {

/// Render one cited source as two indented lines: the file with its
/// section, then the relevance note.
pub fn format_source(file: &str, section: &str, relevance: &str) -> (r: String)
    ensures
        r@ == "  - "@ + file@ + " ("@ + section@ + ")\n    "@ + relevance@,
{
    let mut out = String::from_str("  - ");
    out.append(file);
    out.append(" (");
    out.append(section);
    out.append(")\n    ");
    out.append(relevance);
    out
}

} // verus!
