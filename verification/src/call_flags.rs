//! Flags that change the behaviour of contract-to-contract calls.
use vstd::prelude::*;

verus! {

/// The bit of [`CallFlags`] that forwards the caller's input to the callee.
pub const FORWARD_INPUT_BIT: u32 = 0b0000_0001;

/// The bit of [`CallFlags`] that copies the caller's input to the callee.
pub const CLONE_INPUT_BIT: u32 = 0b0000_0010;

/// The bit of [`CallFlags`] that returns the callee's result to the caller's caller.
pub const TAIL_CALL_BIT: u32 = 0b0000_0100;

/// The bit of [`CallFlags`] that allows the callee to reenter the caller.
pub const ALLOW_REENTRY_BIT: u32 = 0b0000_1000;

/// Every bit that names a flag.
pub const ALL_BITS: u32 = 0b0000_1111;

/// Flags used to change the behaviour of `seal_call` and `seal_delegate_call`.
#[derive(Clone, Copy, PartialEq, Eq, Structural, Debug)]
pub struct CallFlags {
    pub bits: u32,
}

/// `bits` names only known flags.
pub open spec fn known_bits(bits: u32) -> bool {
    bits & !ALL_BITS == 0
}

impl CallFlags {
    /// Forward the input of current function to the callee.
    ///
    /// Supplied input pointers are ignored when set. A forwarding call consumes the current
    /// contract's input: a later access fails with `InputForwarded`.
    pub fn forward_input() -> (r: CallFlags)
        ensures
            r.bits == FORWARD_INPUT_BIT,
    {
        CallFlags { bits: FORWARD_INPUT_BIT }
    }

    /// Identical to `forward_input` but without consuming the input; implies it and takes
    /// precedence when both are set.
    pub fn clone_input() -> (r: CallFlags)
        ensures
            r.bits == CLONE_INPUT_BIT,
    {
        CallFlags { bits: CLONE_INPUT_BIT }
    }

    /// Do not return from the call but rather return the result of the callee to the
    /// caller's caller.
    pub fn tail_call() -> (r: CallFlags)
        ensures
            r.bits == TAIL_CALL_BIT,
    {
        CallFlags { bits: TAIL_CALL_BIT }
    }

    /// Allow the callee to reenter into the current contract.
    pub fn allow_reentry() -> (r: CallFlags)
        ensures
            r.bits == ALLOW_REENTRY_BIT,
    {
        CallFlags { bits: ALLOW_REENTRY_BIT }
    }

    /// Returns an empty set of flags.
    pub fn empty() -> (r: CallFlags)
        ensures
            r.bits == 0,
    {
        CallFlags { bits: 0 }
    }

    /// Returns the set containing all flags.
    pub fn all() -> (r: CallFlags)
        ensures
            r.bits == ALL_BITS,
    {
        assert(0b0001u32 | 0b0010u32 | 0b0100u32 | 0b1000u32 == 0b1111u32) by (bit_vector);
        CallFlags { bits: FORWARD_INPUT_BIT | CLONE_INPUT_BIT | TAIL_CALL_BIT | ALLOW_REENTRY_BIT }
    }

    /// The raw value of the flags.
    pub fn bits(&self) -> (r: u32)
        ensures
            r == self.bits,
    {
        self.bits
    }

    /// Converts raw bits into flags, or `None` if any bit names no flag.
    pub fn from_bits(bits: u32) -> (r: Option<CallFlags>)
        ensures
            r is Some <==> known_bits(bits),
            r matches Some(f) ==> f.bits == bits,
    {
        if (bits & !Self::all().bits()) == 0 {
            Some(CallFlags { bits })
        } else {
            None
        }
    }

    /// Converts raw bits into flags, dropping the bits that name no flag.
    pub fn from_bits_truncate(bits: u32) -> (r: CallFlags)
        ensures
            r.bits == bits & ALL_BITS,
    {
        CallFlags { bits: bits & Self::all().bits }
    }

    /// Converts raw bits into flags, keeping bits that name no flag.
    pub fn from_bits_unchecked(bits: u32) -> (r: CallFlags)
        ensures
            r.bits == bits,
    {
        CallFlags { bits }
    }

    /// Whether no flag is set.
    pub fn is_empty(&self) -> (r: bool)
        ensures
            r == (self.bits == 0),
    {
        self.bits() == Self::empty().bits()
    }

    /// Whether every flag is set.
    pub fn is_all(&self) -> (r: bool)
        ensures
            r == ((ALL_BITS | self.bits) == self.bits),
    {
        (Self::all().bits | self.bits) == self.bits
    }

    /// Whether `self` and `other` have a flag in common.
    pub fn intersects(&self, other: CallFlags) -> (r: bool)
        ensures
            r == (self.bits & other.bits != 0),
    {
        !(CallFlags { bits: self.bits & other.bits }).is_empty()
    }

    /// Whether every flag of `other` is set in `self`.
    pub fn contains(&self, other: CallFlags) -> (r: bool)
        ensures
            r == ((self.bits & other.bits) == other.bits),
    {
        (self.bits & other.bits) == other.bits
    }

    /// Sets the flags of `other`.
    pub fn insert(&mut self, other: CallFlags)
        ensures
            final(self).bits == old(self).bits | other.bits,
    {
        self.bits = self.bits | other.bits;
    }

    /// Clears the flags of `other`.
    pub fn remove(&mut self, other: CallFlags)
        ensures
            final(self).bits == old(self).bits & !other.bits,
    {
        self.bits = self.bits & !other.bits;
    }

    /// Flips the flags of `other`.
    pub fn toggle(&mut self, other: CallFlags)
        ensures
            final(self).bits == old(self).bits ^ other.bits,
    {
        self.bits = self.bits ^ other.bits;
    }

    /// Sets the flags of `other` when `value` holds, clears them otherwise.
    pub fn set(&mut self, other: CallFlags, value: bool)
        ensures
            value ==> final(self).bits == old(self).bits | other.bits,
            !value ==> final(self).bits == old(self).bits & !other.bits,
    {
        if value {
            self.insert(other);
        } else {
            self.remove(other);
        }
    }

    /// The flags set in both `self` and `other`.
    pub fn intersection(self, other: CallFlags) -> (r: CallFlags)
        ensures
            r.bits == self.bits & other.bits,
    {
        CallFlags { bits: self.bits & other.bits }
    }

    /// The flags set in `self` or in `other`.
    pub fn union(self, other: CallFlags) -> (r: CallFlags)
        ensures
            r.bits == self.bits | other.bits,
    {
        CallFlags { bits: self.bits | other.bits }
    }

    /// The flags set in `self` but not in `other`.
    pub fn difference(self, other: CallFlags) -> (r: CallFlags)
        ensures
            r.bits == self.bits & !other.bits,
    {
        CallFlags { bits: self.bits & !other.bits }
    }

    /// The flags set in exactly one of `self` and `other`.
    pub fn symmetric_difference(self, other: CallFlags) -> (r: CallFlags)
        ensures
            r.bits == self.bits ^ other.bits,
    {
        CallFlags { bits: self.bits ^ other.bits }
    }

    /// The known flags that are not set in `self`.
    pub fn complement(self) -> (r: CallFlags)
        ensures
            r.bits == !self.bits & ALL_BITS,
    {
        Self::from_bits_truncate(!self.bits)
    }
}

/// The text of one hexadecimal digit, lower case.
pub open spec fn hex_digit_text(d: u32) -> Seq<char> {
    if d == 0 { "0"@ } else if d == 1 { "1"@ } else if d == 2 { "2"@ } else if d == 3 { "3"@ }
    else if d == 4 { "4"@ } else if d == 5 { "5"@ } else if d == 6 { "6"@ } else if d == 7 { "7"@ }
    else if d == 8 { "8"@ } else if d == 9 { "9"@ } else if d == 10 { "a"@ } else if d == 11 { "b"@ }
    else if d == 12 { "c"@ } else if d == 13 { "d"@ } else if d == 14 { "e"@ } else { "f"@ }
}

/// The lower-case hexadecimal text of `n`, without leading zeros.
pub open spec fn lower_hex(n: u32) -> Seq<char>
    decreases n,
{
    if n < 16 {
        hex_digit_text(n)
    } else {
        lower_hex(n / 16) + hex_digit_text(n % 16)
    }
}

/// `parts` separated by `" | "`.
pub open spec fn join_parts(parts: Seq<Seq<char>>) -> Seq<char>
    decreases parts.len(),
{
    if parts.len() == 0 {
        Seq::empty()
    } else if parts.len() == 1 {
        parts[0]
    } else {
        join_parts(parts.drop_last()) + " | "@ + parts.last()
    }
}

/// `part` when `present`, nothing otherwise.
pub open spec fn part_if(present: bool, part: Seq<char>) -> Seq<Seq<char>> {
    if present { seq![part] } else { Seq::empty() }
}

/// The parts of the debug text of `bits`: the name of each flag that is set, in declaration
/// order, then the bits that name no flag in hexadecimal, if there are any.
pub open spec fn debug_parts(bits: u32) -> Seq<Seq<char>> {
    part_if(bits & FORWARD_INPUT_BIT == FORWARD_INPUT_BIT, "FORWARD_INPUT"@)
        + part_if(bits & CLONE_INPUT_BIT == CLONE_INPUT_BIT, "CLONE_INPUT"@)
        + part_if(bits & TAIL_CALL_BIT == TAIL_CALL_BIT, "TAIL_CALL"@)
        + part_if(bits & ALLOW_REENTRY_BIT == ALLOW_REENTRY_BIT, "ALLOW_REENTRY"@)
        + part_if(bits & !ALL_BITS != 0, "0x"@ + lower_hex(bits & !ALL_BITS))
}

/// The debug text of flags with these `bits`: their parts joined by `" | "`, or `(empty)`.
pub open spec fn debug_text(bits: u32) -> Seq<char> {
    if debug_parts(bits).len() == 0 { "(empty)"@ } else { join_parts(debug_parts(bits)) }
}

/// The text of the hexadecimal digit `d`.
fn hex_digit(d: u32) -> (r: &'static str)
    requires
        d < 16,
    ensures
        r@ == hex_digit_text(d),
{
    if d == 0 { "0" } else if d == 1 { "1" } else if d == 2 { "2" } else if d == 3 { "3" }
    else if d == 4 { "4" } else if d == 5 { "5" } else if d == 6 { "6" } else if d == 7 { "7" }
    else if d == 8 { "8" } else if d == 9 { "9" } else if d == 10 { "a" } else if d == 11 { "b" }
    else if d == 12 { "c" } else if d == 13 { "d" } else if d == 14 { "e" } else { "f" }
}

/// Appends the lower-case hexadecimal text of `n` to `out`.
fn push_lower_hex(out: &mut String, n: u32)
    ensures
        final(out)@ == old(out)@ + lower_hex(n),
    decreases n,
{
    if n >= 16 {
        push_lower_hex(out, n / 16);
    }
    out.append(hex_digit(n % 16));
    proof {
        if n >= 16 {
            assert(final(out)@ =~= old(out)@ + lower_hex(n));
        }
    }
}

/// Appends `part` to `out`, which holds `parts` joined, after a separator where `parts` is not
/// empty.
fn push_part(out: &mut String, Ghost(parts): Ghost<Seq<Seq<char>>>, first: bool, part: &str) -> (r: Ghost<Seq<Seq<char>>>)
    requires
        old(out)@ == join_parts(parts),
        first == (parts.len() == 0),
    ensures
        r@ == parts.push(part@),
        final(out)@ == join_parts(r@),
{
    if !first {
        out.append(" | ");
    }
    out.append(part);
    proof {
        assert(parts.push(part@).drop_last() =~= parts);
        if parts.len() == 0 {
            assert(final(out)@ =~= part@);
        } else {
            assert(final(out)@ =~= join_parts(parts) + " | "@ + part@);
        }
    }
    Ghost(parts.push(part@))
}

impl CallFlags {
    /// The debug text of the flags: the names of the flags that are set, in declaration order,
    /// then any bits that name no flag as `0x` and lower-case hexadecimal, all separated by
    /// `" | "`; `(empty)` where there is nothing to show.
    pub fn to_debug_string(&self) -> (r: String)
        ensures
            r@ == debug_text(self.bits),
    {
        let bits = self.bits;
        let mut out = String::new();
        let ghost mut parts: Seq<Seq<char>> = Seq::empty();
        let mut first = true;
        if bits & FORWARD_INPUT_BIT == FORWARD_INPUT_BIT {
            let Ghost(p) = push_part(&mut out, Ghost(parts), first, "FORWARD_INPUT");
            proof { parts = p; }
            first = false;
        }
        if bits & CLONE_INPUT_BIT == CLONE_INPUT_BIT {
            let Ghost(p) = push_part(&mut out, Ghost(parts), first, "CLONE_INPUT");
            proof { parts = p; }
            first = false;
        }
        if bits & TAIL_CALL_BIT == TAIL_CALL_BIT {
            let Ghost(p) = push_part(&mut out, Ghost(parts), first, "TAIL_CALL");
            proof { parts = p; }
            first = false;
        }
        if bits & ALLOW_REENTRY_BIT == ALLOW_REENTRY_BIT {
            let Ghost(p) = push_part(&mut out, Ghost(parts), first, "ALLOW_REENTRY");
            proof { parts = p; }
            first = false;
        }
        let extra = bits & !ALL_BITS;
        if extra != 0 {
            let mut hex = String::new();
            hex.append("0x");
            push_lower_hex(&mut hex, extra);
            let Ghost(p) = push_part(&mut out, Ghost(parts), first, hex.as_str());
            proof { parts = p; }
            first = false;
        }
        proof {
            assert(parts =~= debug_parts(bits));
        }
        if first {
            out.append("(empty)");
        }
        out
    }
}

impl core::ops::BitOr for CallFlags {
    type Output = CallFlags;

    /// The flags set in either operand.
    fn bitor(self, rhs: CallFlags) -> (r: CallFlags) {
        self.union(rhs)
    }
}

impl vstd::std_specs::ops::BitOrSpecImpl for CallFlags {
    open spec fn obeys_bitor_spec() -> bool {
        true
    }

    open spec fn bitor_req(self, rhs: CallFlags) -> bool {
        true
    }

    open spec fn bitor_spec(self, rhs: CallFlags) -> CallFlags {
        CallFlags { bits: self.bits | rhs.bits }
    }
}

impl core::ops::BitAnd for CallFlags {
    type Output = CallFlags;

    /// The flags set in both operands.
    fn bitand(self, rhs: CallFlags) -> (r: CallFlags) {
        self.intersection(rhs)
    }
}

impl vstd::std_specs::ops::BitAndSpecImpl for CallFlags {
    open spec fn obeys_bitand_spec() -> bool {
        true
    }

    open spec fn bitand_req(self, rhs: CallFlags) -> bool {
        true
    }

    open spec fn bitand_spec(self, rhs: CallFlags) -> CallFlags {
        CallFlags { bits: self.bits & rhs.bits }
    }
}

impl core::ops::BitXor for CallFlags {
    type Output = CallFlags;

    /// The flags set in exactly one operand.
    fn bitxor(self, rhs: CallFlags) -> (r: CallFlags) {
        self.symmetric_difference(rhs)
    }
}

impl vstd::std_specs::ops::BitXorSpecImpl for CallFlags {
    open spec fn obeys_bitxor_spec() -> bool {
        true
    }

    open spec fn bitxor_req(self, rhs: CallFlags) -> bool {
        true
    }

    open spec fn bitxor_spec(self, rhs: CallFlags) -> CallFlags {
        CallFlags { bits: self.bits ^ rhs.bits }
    }
}

impl core::ops::Sub for CallFlags {
    type Output = CallFlags;

    /// The flags set in the left operand but not in the right one.
    fn sub(self, rhs: CallFlags) -> (r: CallFlags) {
        self.difference(rhs)
    }
}

impl vstd::std_specs::ops::SubSpecImpl for CallFlags {
    open spec fn obeys_sub_spec() -> bool {
        true
    }

    open spec fn sub_req(self, rhs: CallFlags) -> bool {
        true
    }

    open spec fn sub_spec(self, rhs: CallFlags) -> CallFlags {
        CallFlags { bits: self.bits & !rhs.bits }
    }
}

impl core::ops::Not for CallFlags {
    type Output = CallFlags;

    /// The known flags that are not set.
    fn not(self) -> (r: CallFlags) {
        self.complement()
    }
}

impl vstd::std_specs::ops::NotSpecImpl for CallFlags {
    open spec fn obeys_not_spec() -> bool {
        true
    }

    open spec fn not_req(self) -> bool {
        true
    }

    open spec fn not_spec(self) -> CallFlags {
        CallFlags { bits: !self.bits & ALL_BITS }
    }
}

} // verus!
