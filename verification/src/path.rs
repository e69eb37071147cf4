//! The one path that the loader reads its kernel from.

use vstd::prelude::*;

verus! {

/// The character that separates the components of a firmware path.
pub open spec fn separator() -> char {
    '\\'
}

/// The path, from the root of a medium, that leads through the directories
/// `components[0]`, `components[1]`, ... to the last component: each
/// component with a separator in front of it.
pub open spec fn rooted(components: Seq<Seq<char>>) -> Seq<char>
    decreases components.len(),
{
    if components.len() == 0 {
        Seq::empty()
    } else {
        rooted(components.drop_last()) + seq![separator()] + components.last()
    }
}

/// The kernel's place on the boot medium: the file `kernel` in the directory
/// `boot` in the directory `brisbane`.
pub open spec fn kernel_components() -> Seq<Seq<char>> {
    seq!["brisbane"@, "boot"@, "kernel"@]
}

/// The kernel's path as the firmware's file system reads it.
pub open spec fn kernel_path_text() -> Seq<char> {
    "\\brisbane\\boot\\kernel"@
}

/// The path of the root directory of a medium.
pub open spec fn root_path_text() -> Seq<char> {
    "\\"@
}

/// Whether a text can be written in UCS-2 as a terminated string: every
/// character lies in the basic plane and none is the terminator.
pub open spec fn ucs2_encodable(text: Seq<char>) -> bool {
    forall|i: int| 0 <= i < text.len() ==> 0 < (#[trigger] text[i]) as u32 <= 0xFFFF
}

/// The UCS-2 code units of a text, with the terminator behind them.
pub open spec fn ucs2_units(text: Seq<char>) -> Seq<u16> {
    Seq::new(text.len(), |i: int| text[i] as u16).push(0u16)
}

/// Converts with `uefi::CString16::try_from(&str)` and hands out the units of
/// the result, terminator included. The crate turns each character into one
/// UTF-16 unit, refuses a character that needs two, refuses the character
/// zero, and appends one zero unit.
#[verifier::external_body]
fn encode_ucs2(text: &str) -> (units: Option<Vec<u16>>)
    ensures
        units is Some <==> ucs2_encodable(text@),
        units is Some ==> units->0@ == ucs2_units(text@),
{
    match uefi::CString16::try_from(text) {
        Ok(encoded) => Some(encoded.to_u16_slice_with_nul().to_vec()),
        Err(_) => None,
    }
}

/// Whether code units are a terminated UCS-2 string: one zero unit, which
/// is the last, and before it no half of a surrogate pair.
pub open spec fn is_ucs2_string(units: Seq<u16>) -> bool {
    &&& units.len() > 0
    &&& units.last() == 0
    &&& forall|i: int|
        0 <= i < units.len() - 1 ==> (#[trigger] units[i]) != 0 && !(0xD800 <= units[i] <= 0xDFFF)
}

/// A path in the form that the firmware's file system takes: a terminated
/// UCS-2 string.
#[derive(Debug, PartialEq, Eq)]
pub struct FirmwarePath {
    units: Vec<u16>,
}

impl View for FirmwarePath {
    type V = Seq<u16>;

    closed spec fn view(&self) -> Seq<u16> {
        self.units@
    }
}

impl FirmwarePath {
    #[verifier::type_invariant]
    spec fn terminated(self) -> bool {
        is_ucs2_string(self.units@)
    }

    /// The code units of the path, the terminator last.
    pub fn units(&self) -> (units: &Vec<u16>)
        ensures
            units@ == self@,
            is_ucs2_string(self@),
    {
        proof {
            use_type_invariant(self);
        }
        &self.units
    }
}

/// The fixed path of the kernel, ready for the firmware.
pub fn kernel_path() -> (path: FirmwarePath)
    ensures
        path@ == ucs2_units(kernel_path_text()),
{
    let encoded = encode_ucs2("\\brisbane\\boot\\kernel");
    proof {
        lemma_kernel_path_encodable();
    }
    FirmwarePath { units: encoded.unwrap() }
}

/// The path of the root directory, ready for the firmware.
pub fn root_path() -> (path: FirmwarePath)
    ensures
        path@ == ucs2_units(root_path_text()),
{
    let encoded = encode_ucs2("\\");
    proof {
        lemma_root_path_encodable();
    }
    FirmwarePath { units: encoded.unwrap() }
}

/// The root path has a UCS-2 form, and that form is a terminated string.
pub proof fn lemma_root_path_encodable()
    ensures
        ucs2_encodable(root_path_text()),
        is_ucs2_string(ucs2_units(root_path_text())),
{
    reveal_strlit("\\");
}

/// The kernel's path has a UCS-2 form: encoding it cannot fail, and what
/// comes out is a terminated string.
pub proof fn lemma_kernel_path_encodable()
    ensures
        ucs2_encodable(kernel_path_text()),
        is_ucs2_string(ucs2_units(kernel_path_text())),
{
    reveal_strlit("\\brisbane\\boot\\kernel");
}

/// The kernel's path text names the file `kernel` in `boot` in `brisbane`,
/// counted from the root of the medium.
pub proof fn lemma_kernel_path_components()
    ensures
        kernel_path_text() == rooted(kernel_components()),
{
    reveal_strlit("\\brisbane\\boot\\kernel");
    reveal_strlit("brisbane");
    reveal_strlit("boot");
    reveal_strlit("kernel");
    reveal_with_fuel(rooted, 4);
    let parts = kernel_components();
    assert(parts.drop_last() =~= seq!["brisbane"@, "boot"@]);
    assert(parts.drop_last().drop_last() =~= seq!["brisbane"@]);
    assert(parts.drop_last().drop_last().drop_last() =~= Seq::<Seq<char>>::empty());
    assert(kernel_path_text() =~= rooted(parts));
}

} // verus!
