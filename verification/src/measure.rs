//! Sizes of widget labels.
use vstd::prelude::*;

verus! {

/// The length of `s` in UTF-8 bytes.
pub open spec fn utf8_len(s: Seq<char>) -> usize {
    vstd::utf8::encode_utf8(s).len() as usize
}

/// The width of a widget drawn as a two-cell indicator or frame around a
/// label: the label's length in bytes plus 2, kept to its low 16 bits as a
/// `u16` cast keeps it.
pub open spec fn label_width_spec(label: Seq<char>) -> u16 {
    ((utf8_len(label) + 2) % 0x10000) as u16
}

/// See [`label_width_spec`].
pub fn label_width(label: &String) -> (r: u16)
    ensures
        r == label_width_spec(label@),
{
    let len = label.as_str().len();
    let low = (len % 0x10000) as u32;
    let w = (low + 2) % 0x10000;
    proof {
        vstd::arithmetic::div_mod::lemma_add_mod_noop(len as int, 2, 0x10000);
        vstd::arithmetic::div_mod::lemma_mod_twice(2, 0x10000);
    }
    w as u16
}

} // verus!
