//! The key and axis codes of input devices, as `evdev` holds them: one bit per code.
use vstd::prelude::*;

verus! {

/// The number of key codes of the Linux input layer.
pub const KEY_COUNT: u16 = 0x300;

/// A set of codes of an input device, as the device reports it.
#[verifier::external_type_specification]
#[verifier::external_body]
#[verifier::reject_recursive_types(T)]
pub struct ExAttributeSetRef<T>(evdev::AttributeSetRef<T>);

/// A key or button code.
#[verifier::external_type_specification]
#[verifier::external_body]
pub struct ExKeyCode(evdev::KeyCode);

/// The code of a relative axis.
#[verifier::external_type_specification]
#[verifier::external_body]
pub struct ExRelativeAxisCode(evdev::RelativeAxisCode);

/// The codes whose bits are set in `keys`.
pub uninterp spec fn key_codes(keys: &evdev::AttributeSetRef<evdev::KeyCode>) -> Set<u16>;

/// The codes whose bits are set in `axes`.
pub uninterp spec fn axis_codes(
    axes: &evdev::AttributeSetRef<evdev::RelativeAxisCode>,
) -> Set<u16>;

/// Calls `evdev::AttributeSetRef::contains` on a set of keys.
///
/// Trusted: the answer is whether the bit of `code` is set; a code past the end of
/// the set is not in it.
#[verifier::external_body]
pub(crate) fn has_key(keys: &evdev::AttributeSetRef<evdev::KeyCode>, code: u16) -> (r: bool)
    ensures
        r == key_codes(keys).contains(code),
{
    keys.contains(evdev::KeyCode(code))
}

/// Calls `evdev::AttributeSetRef::contains` on a set of relative axes.
///
/// Trusted: the answer is whether the bit of `code` is set; a code past the end of
/// the set is not in it.
#[verifier::external_body]
pub(crate) fn has_axis(
    axes: &evdev::AttributeSetRef<evdev::RelativeAxisCode>,
    code: u16,
) -> (r: bool)
    ensures
        r == axis_codes(axes).contains(code),
{
    axes.contains(evdev::RelativeAxisCode(code))
}

/// A set of keys to give to a virtual device: an `evdev::AttributeSet`, whose
/// element trait is private to `evdev`, so that it cannot be declared by itself.
#[verifier::external_body]
pub struct KeySet {
    keys: evdev::AttributeSet<evdev::KeyCode>,
}

/// The codes whose bits are set in `set`.
pub uninterp spec fn set_codes(set: &KeySet) -> Set<u16>;

impl KeySet {
    /// Calls `evdev::AttributeSet::new`.
    ///
    /// Trusted: no bit of the new set is set.
    #[verifier::external_body]
    pub(crate) fn new() -> (set: KeySet)
        ensures
            set_codes(&set) == Set::<u16>::empty(),
    {
        KeySet { keys: evdev::AttributeSet::new() }
    }

    /// Calls `evdev::AttributeSetRef::insert` on the set.
    ///
    /// Trusted: the bit of `code` is set, and the others stay as they were. The set
    /// has a bit for every key code, and none for a number beyond them.
    #[verifier::external_body]
    pub(crate) fn insert(&mut self, code: u16)
        requires
            code < KEY_COUNT,
        ensures
            set_codes(final(self)) == set_codes(old(self)).insert(code),
    {
        self.keys.insert(evdev::KeyCode(code))
    }

    /// The set as `evdev` takes it, by `evdev::AttributeSet::deref`.
    ///
    /// Trusted: both hold the same codes.
    #[verifier::external_body]
    pub(crate) fn as_attributes(&self) -> (keys: &evdev::AttributeSetRef<evdev::KeyCode>)
        ensures
            key_codes(keys) == set_codes(self),
    {
        &self.keys
    }
}

} // verus!
