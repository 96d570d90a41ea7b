//! Items of outside crates that the library holds or calls.

use vstd::prelude::*;

verus! {

/// A colour palette of the zellij host; the library only stores it.
#[verifier::external_type_specification]
#[verifier::external_body]
pub struct ExPalette(zellij_tile::prelude::Palette);

/// A layout offered by the zellij host.
#[verifier::external_type_specification]
#[verifier::external_body]
pub struct ExLayoutInfo(zellij_tile::prelude::LayoutInfo);

/// The name under which zellij lists a layout (`LayoutInfo::name`).
pub uninterp spec fn layout_info_name(layout: zellij_tile::prelude::LayoutInfo) -> Seq<char>;

/// Calls `LayoutInfo::name`, which returns the string held in whichever
/// variant the layout is; the contract names that string.
#[verifier::external_body]
pub fn layout_name(layout: &zellij_tile::prelude::LayoutInfo) -> (res: String)
    ensures
        res@ == layout_info_name(*layout),
{
    layout.name().to_string()
}

/// Cloning a layout (the derived `Clone` of `LayoutInfo`) gives an equal value.
pub assume_specification[ <zellij_tile::prelude::LayoutInfo as Clone>::clone ](
    layout: &zellij_tile::prelude::LayoutInfo,
) -> (res: zellij_tile::prelude::LayoutInfo)
    ensures
        res == *layout,
;

/// A lower-case hexadecimal digit.
pub open spec fn is_lower_hex(c: char) -> bool {
    ('0' <= c && c <= '9') || ('a' <= c && c <= 'f')
}

/// The shape of a version-4 UUID written hyphenated: 36 characters, hyphens
/// at positions 8, 13, 18 and 23, lower-case hex digits elsewhere, and the
/// version digit `4` at position 14.
pub open spec fn is_hyphenated_v4(s: Seq<char>) -> bool {
    &&& s.len() == 36
    &&& forall|i: int|
        0 <= i < 36 ==> if i == 8 || i == 13 || i == 18 || i == 23 {
            s[i] == '-'
        } else {
            is_lower_hex(#[trigger] s[i])
        }
    &&& s[14] == '4'
}

/// Calls `uuid::Uuid::new_v4` and formats the result with `to_string`.
/// The value is random; only its shape is stated.
#[verifier::external_body]
pub fn new_request_id() -> (res: String)
    ensures
        is_hyphenated_v4(res@),
{
    uuid::Uuid::new_v4().to_string()
}

} // verus!
