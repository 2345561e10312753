use vstd::prelude::*;
use vstd::arithmetic::div_mod::{lemma_breakdown, lemma_div_denominator};
use crate::bundle::{parameter_message, AvatarBundle, OscMessageView, OscValue, OscValueView};
use crate::level::{Level, UNIT};
use crate::text::{decimal, decimal_text, joined, owned};

verus! {

/// Most bit addresses that one channel can have.
pub const MAX_BITS: usize = 8;

/// A directly sent value goes out again once it has moved by more than this: a hundredth.
pub const SEND_THRESHOLD: Level = 10_000;

/// Two to the power `n`.
pub open spec fn two_pow(n: nat) -> int
    decreases n,
{
    if n == 0 {
        1
    } else {
        2 * two_pow((n - 1) as nat)
    }
}

/// The largest integer that `num_bits` bits can hold.
pub open spec fn full_scale(num_bits: nat) -> int {
    two_pow(num_bits) - 1
}

/// The integer nearest to `magnitude * full_scale(num_bits)`, halves rounded
/// up, where `magnitude` is a level that is not negative.
pub open spec fn quantize(magnitude: int, num_bits: nat) -> int {
    (2 * magnitude * full_scale(num_bits) + UNIT) / (2 * UNIT)
}

/// Bit `position` of the integer `q`.
pub open spec fn bit(q: int, position: nat) -> bool {
    (q / two_pow(position)) % 2 == 1
}

/// The integer whose lowest `n` bits are those of `bits`.
pub open spec fn decode(bits: Seq<bool>, n: nat) -> int
    decreases n,
{
    if n == 0 {
        0
    } else {
        decode(bits, (n - 1) as nat) + if bits[n - 1] {
            two_pow((n - 1) as nat)
        } else {
            0
        }
    }
}

/// The lowest `n` bits of `q`, lowest first.
pub open spec fn encode(q: int, n: nat) -> Seq<bool> {
    Seq::new(n, |i: int| bit(q, i as nat))
}

pub proof fn lemma_two_pow_positive(n: nat)
    ensures
        two_pow(n) >= 1,
    decreases n,
{
    if n > 0 {
        lemma_two_pow_positive((n - 1) as nat);
    }
}

pub proof fn lemma_two_pow_monotonic(a: nat, b: nat)
    requires
        a <= b,
    ensures
        two_pow(a) <= two_pow(b),
    decreases b,
{
    if a < b {
        lemma_two_pow_monotonic(a, (b - 1) as nat);
        lemma_two_pow_positive((b - 1) as nat);
    }
}

/// Taking the bits of an integer apart and putting them together again
/// gives back what is left of it below two to the `n`.
pub proof fn lemma_decode_encode(q: int, n: nat)
    requires
        0 <= q,
    ensures
        decode(encode(q, n), n) == q % two_pow(n),
    decreases n,
{
    lemma_two_pow_positive(n);
    if n == 0 {
    } else {
        let m = (n - 1) as nat;
        lemma_two_pow_positive(m);
        lemma_decode_encode(q, m);
        lemma_decode_prefix(encode(q, n), encode(q, m), m);
        let p = two_pow(m);
        lemma_breakdown(q, p, 2);
        assert(p * 2 == two_pow(n));
    }
}

proof fn lemma_decode_prefix(a: Seq<bool>, b: Seq<bool>, n: nat)
    requires
        n <= a.len(),
        n <= b.len(),
        forall|i: int| 0 <= i < n ==> a[i] == b[i],
    ensures
        decode(a, n) == decode(b, n),
    decreases n,
{
    if n > 0 {
        lemma_decode_prefix(a, b, (n - 1) as nat);
    }
}

/// Quantization bound: a value between zero and one, packed into `num_bits`
/// bits and unpacked again, comes back within one step of the scale:
/// `|q / full_scale - value / UNIT| <= 1 / full_scale`.
pub proof fn lemma_quantization_bound(value: Level, num_bits: nat)
    requires
        0 <= value <= UNIT,
        1 <= num_bits <= 8,
    ensures
        ({
            let q = decode(encode(quantize(value as int, num_bits), num_bits), num_bits);
            &&& 0 <= q <= full_scale(num_bits)
            &&& q == quantize(value as int, num_bits)
            &&& -UNIT <= q * UNIT - value * full_scale(num_bits) <= UNIT
        }),
{
    let m = full_scale(num_bits);
    let q = quantize(value as int, num_bits);
    lemma_two_pow_positive(num_bits);
    assert(m >= 1) by {
        lemma_two_pow_monotonic(1, num_bits);
        assert(two_pow(1) == 2) by {
            assert(two_pow(0) == 1);
        }
    }
    let v = value as int;
    let unit = UNIT as int;
    assert(0 <= q <= m && -unit <= 2 * (q * unit - v * m) <= unit) by (nonlinear_arith)
        requires
            q == (2 * v * m + unit) / (2 * unit),
            0 <= v <= unit,
            unit == 1_000_000,
            m >= 1,
    ;
    lemma_decode_encode(q, num_bits);
    assert(q % two_pow(num_bits) == q) by (nonlinear_arith)
        requires
            0 <= q <= m,
            m == two_pow(num_bits) - 1,
    ;
}

/// How one channel travels: as a real number to one address, or as a sign
/// and up to eight bits to one address each. It also remembers what was sent
/// last, so that only changes go out.
#[derive(Clone, Debug, PartialEq, Eq)]
pub struct MysteryParam {
    pub name: String,
    pub main_address: Option<String>,
    pub addresses: [Option<String>; MAX_BITS],
    pub neg_address: Option<String>,
    pub num_bits: usize,
    pub last_value: Level,
    pub last_bits: [bool; MAX_BITS],
    pub last_negative: bool,
}

/// What a descriptor holds, with text as sequences of characters.
pub struct MysteryParamView {
    pub name: Seq<char>,
    pub main_address: Option<Seq<char>>,
    pub addresses: Seq<Option<Seq<char>>>,
    pub neg_address: Option<Seq<char>>,
    pub num_bits: nat,
    pub last_value: Level,
    pub last_bits: Seq<bool>,
    pub last_negative: bool,
}

/// The characters of a string that may be absent.
pub open spec fn text_view(s: Option<String>) -> Option<Seq<char>> {
    match s {
        Some(t) => Some(t@),
        None => None,
    }
}

impl View for MysteryParam {
    type V = MysteryParamView;

    open spec fn view(&self) -> MysteryParamView {
        MysteryParamView {
            name: self.name@,
            main_address: text_view(self.main_address),
            addresses: self.addresses@.map_values(|a: Option<String>| text_view(a)),
            neg_address: text_view(self.neg_address),
            num_bits: self.num_bits as nat,
            last_value: self.last_value,
            last_bits: self.last_bits@,
            last_negative: self.last_negative,
        }
    }
}

impl MysteryParamView {
    /// The bit count is one more than the highest bit that has an address.
    pub open spec fn wf(self) -> bool {
        &&& self.addresses.len() == MAX_BITS
        &&& self.last_bits.len() == MAX_BITS
        &&& self.num_bits <= MAX_BITS
        &&& self.num_bits > 0 ==> self.addresses[self.num_bits - 1] is Some
        &&& forall|i: int| self.num_bits <= i < MAX_BITS ==> self.addresses[i] is None
    }

    /// The descriptor names no address at all.
    pub open spec fn is_empty(self) -> bool {
        &&& self.main_address is None
        &&& self.neg_address is None
        &&& forall|i: int| 0 <= i < self.addresses.len() ==> self.addresses[i] is None
    }

    /// Whether `value` is far enough from the value sent last to go out directly.
    pub open spec fn direct_due(self, value: Level) -> bool {
        self.main_address is Some && (value - self.last_value > SEND_THRESHOLD
            || self.last_value - value > SEND_THRESHOLD)
    }

    /// The message of the direct mode, if one is due.
    pub open spec fn direct_messages(self, value: Level) -> Seq<OscMessageView> {
        if self.direct_due(value) {
            seq![parameter_message(self.main_address->0, OscValueView::Float(value))]
        } else {
            Seq::empty()
        }
    }

    /// Whether the sign of `value` has to be told.
    pub open spec fn sign_due(self, value: Level) -> bool {
        self.neg_address is Some && self.last_negative != (value < 0)
    }

    /// The message that tells the sign, if one is due.
    pub open spec fn sign_messages(self, value: Level) -> Seq<OscMessageView> {
        if self.sign_due(value) {
            seq![parameter_message(self.neg_address->0, OscValueView::Bool(value < 0))]
        } else {
            Seq::empty()
        }
    }

    /// What is packed into bits: the absolute value where the sign has an
    /// address of its own, else the value with everything below zero raised
    /// to zero.
    pub open spec fn magnitude(self, value: Level) -> int {
        if self.neg_address is Some {
            if value < 0 {
                -value
            } else {
                value as int
            }
        } else if value < 0 {
            0
        } else {
            value as int
        }
    }

    /// The integer that stands for `value` in the bits of this channel.
    pub open spec fn quantized(self, value: Level) -> int {
        quantize(self.magnitude(value), self.num_bits)
    }

    /// Whether bit `position` of `q` has to be told.
    pub open spec fn bit_due(self, q: int, position: int) -> bool {
        &&& 0 <= position < self.num_bits
        &&& self.addresses[position] is Some
        &&& self.last_bits[position] != bit(q, position as nat)
    }

    /// The messages for the bits below `upto` that have to be told, lowest bit first.
    pub open spec fn bit_messages(self, q: int, upto: int) -> Seq<OscMessageView>
        decreases upto,
    {
        if upto <= 0 {
            Seq::empty()
        } else {
            let rest = self.bit_messages(q, upto - 1);
            if self.bit_due(q, upto - 1) {
                rest.push(
                    parameter_message(
                        self.addresses[upto - 1]->0,
                        OscValueView::Bool(bit(q, (upto - 1) as nat)),
                    ),
                )
            } else {
                rest
            }
        }
    }

    /// Everything that sending `value` puts on the wire, in order: the
    /// direct value, the sign, then the bits.
    pub open spec fn sent_messages(self, value: Level) -> Seq<OscMessageView> {
        self.direct_messages(value) + self.sign_messages(value) + self.bit_messages(
            self.quantized(value),
            self.num_bits as int,
        )
    }

    /// The bits remembered after `q` was sent: every bit below `upto` that
    /// has an address holds the bit of `q`, the others are as before.
    pub open spec fn bits_after(self, q: int, upto: int) -> Seq<bool> {
        Seq::new(
            MAX_BITS as nat,
            |i: int|
                if i < upto && self.addresses[i] is Some {
                    bit(q, i as nat)
                } else {
                    self.last_bits[i]
                },
        )
    }

    /// The descriptor after `value` was sent.
    pub open spec fn sent_state(self, value: Level) -> MysteryParamView {
        MysteryParamView {
            last_value: if self.direct_due(value) {
                value
            } else {
                self.last_value
            },
            last_negative: if self.neg_address is Some {
                value < 0
            } else {
                self.last_negative
            },
            last_bits: self.bits_after(self.quantized(value), self.num_bits as int),
            ..self
        }
    }
}

/// Bit diff suppression: when the quantized integer of a second value is the
/// one that was sent first, the second send tells no bit; and where the sign
/// has not changed either, or has no address, nothing but the direct value
/// can go out.
pub proof fn lemma_unchanged_bits_are_silent(p: MysteryParamView, first: Level, second: Level)
    requires
        p.wf(),
        p.sent_state(first).quantized(second) == p.quantized(first),
    ensures
        ({
            let then = p.sent_state(first);
            &&& then.bit_messages(then.quantized(second), then.num_bits as int) == Seq::<
                OscMessageView,
            >::empty()
            &&& p.neg_address is None || (first < 0) == (second < 0) ==> then.sent_messages(second)
                == then.direct_messages(second)
        }),
{
    let then = p.sent_state(first);
    lemma_no_bit_due(then, then.quantized(second), then.num_bits as int);
    if p.neg_address is None || (first < 0) == (second < 0) {
        assert(then.sent_messages(second) =~= then.direct_messages(second));
    }
}

proof fn lemma_no_bit_due(p: MysteryParamView, q: int, upto: int)
    requires
        upto <= p.num_bits,
        forall|i: int| 0 <= i < upto ==> !p.bit_due(q, i),
    ensures
        p.bit_messages(q, upto) == Seq::<OscMessageView>::empty(),
    decreases upto,
{
    if upto > 0 {
        lemma_no_bit_due(p, q, upto - 1);
    }
}

/// The first `upto` of `parts`, with ` + ` between them.
pub open spec fn join_plus(parts: Seq<Seq<char>>, upto: int) -> Seq<char>
    decreases upto,
{
    if upto <= 0 {
        Seq::empty()
    } else if upto == 1 {
        parts[0]
    } else {
        join_plus(parts, upto - 1) + " + "@ + parts[upto - 1]
    }
}

impl MysteryParamView {
    /// What the descriptor offers, one word for each: the direct address,
    /// the bits, the sign.
    pub open spec fn elements(self) -> Seq<Seq<char>> {
        let direct = if self.main_address is Some {
            seq!["float"@]
        } else {
            Seq::empty()
        };
        let bits = if self.num_bits > 1 {
            direct.push(decimal(self.num_bits) + " bit"@)
        } else if self.num_bits > 0 {
            direct.push(decimal(self.num_bits) + " bits"@)
        } else {
            direct
        };
        if self.neg_address is Some {
            bits.push("neg"@)
        } else {
            bits
        }
    }

    /// One line that says what the descriptor offers.
    pub open spec fn summary(self) -> Seq<char> {
        self.name + ": "@ + join_plus(self.elements(), self.elements().len() as int)
    }
}

/// The characters of each string.
pub open spec fn texts_view(parts: Seq<String>) -> Seq<Seq<char>> {
    parts.map_values(|s: String| s@)
}

/// Two to the power `n`.
fn power_of_two(n: usize) -> (r: i64)
    requires
        n <= MAX_BITS,
    ensures
        r == two_pow(n as nat),
        1 <= r <= 256,
{
    let mut r: i64 = 1;
    let mut i: usize = 0;
    proof {
        reveal_with_fuel(two_pow, 9);
    }
    while i < n
        invariant
            i <= n <= MAX_BITS,
            r == two_pow(i as nat),
            1 <= r,
            r <= two_pow(MAX_BITS as nat),
            two_pow(MAX_BITS as nat) == 256,
        decreases n - i,
    {
        proof {
            lemma_two_pow_monotonic((i + 1) as nat, MAX_BITS as nat);
        }
        r = r * 2;
        i += 1;
    }
    r
}

/// The integer that stands for `magnitude` on a scale of `num_bits` bits.
pub fn quantize_level(magnitude: i64, num_bits: usize) -> (q: i64)
    requires
        0 <= magnitude <= 0x8000_0000,
        num_bits <= MAX_BITS,
    ensures
        q == quantize(magnitude as int, num_bits as nat),
        0 <= q,
{
    let scale: i64 = power_of_two(num_bits) - 1;
    assert(0 <= 2 * magnitude * scale <= 2 * 0x8000_0000 * 255) by (nonlinear_arith)
        requires
            0 <= magnitude <= 0x8000_0000,
            0 <= scale <= 255,
    ;
    (2 * magnitude * scale + 1_000_000) / 2_000_000
}

impl MysteryParam {
    /// The bit count is one more than the highest bit that has an address.
    pub open spec fn wf(&self) -> bool {
        self@.wf()
    }

    /// A descriptor for the channel `name` that names no address yet.
    pub fn new(name: String) -> (p: MysteryParam)
        ensures
            p.wf(),
            p@.is_empty(),
            p@.name == name@,
            p@.num_bits == 0,
            p@.last_value == 0,
            !p@.last_negative,
            forall|i: int| 0 <= i < MAX_BITS ==> !p@.last_bits[i],
    {
        MysteryParam {
            name,
            main_address: None,
            addresses: [None, None, None, None, None, None, None, None],
            neg_address: None,
            num_bits: 0,
            last_value: 0,
            last_bits: [false; MAX_BITS],
            last_negative: false,
        }
    }

    /// Sends `value` for this channel: appends to `bundle` what has changed
    /// since the last send and remembers what was sent.
    pub fn send(&mut self, value: Level, bundle: &mut AvatarBundle)
        requires
            old(self).wf(),
        ensures
            final(self)@ == old(self)@.sent_state(value),
            final(self).wf(),
            final(bundle)@ == old(bundle)@ + old(self)@.sent_messages(value),
    {
        let ghost p = self@;
        let ghost out = bundle@;
        if let Some(addr) = &self.main_address {
            let delta: i64 = value as i64 - self.last_value as i64;
            if delta > 10_000 || delta < -10_000 {
                bundle.send_parameter(addr.as_str(), OscValue::Float(value));
                self.last_value = value;
            }
        }
        assert(bundle@ =~= out + p.direct_messages(value));
        let negative = value < 0;
        let mut magnitude: i64 = value as i64;
        if let Some(addr) = &self.neg_address {
            if self.last_negative != negative {
                bundle.send_parameter(addr.as_str(), OscValue::Bool(negative));
                self.last_negative = negative;
            }
            if negative {
                magnitude = -magnitude;
            }
        } else if negative {
            magnitude = 0;
        }
        assert(bundle@ =~= out + p.direct_messages(value) + p.sign_messages(value));
        let q: i64 = quantize_level(magnitude, self.num_bits);
        let mut rest: i64 = q;
        let mut idx: usize = 0;
        assert(self.last_bits@ =~= p.bits_after(q as int, 0));
        assert(two_pow(0) == 1);
        while idx < self.num_bits
            invariant
                p.wf(),
                p == old(self)@,
                idx <= self.num_bits <= MAX_BITS,
                0 <= q,
                q == p.quantized(value),
                rest == (q as int) / two_pow(idx as nat),
                self@ == (MysteryParamView {
                    last_value: p.sent_state(value).last_value,
                    last_negative: p.sent_state(value).last_negative,
                    last_bits: p.bits_after(q as int, idx as int),
                    ..p
                }),
                bundle@ == out + p.direct_messages(value) + p.sign_messages(value)
                    + p.bit_messages(q as int, idx as int),
            decreases self.num_bits - idx,
        {
            let ghost before = bundle@;
            let ghost bits_before = self.last_bits@;
            proof {
                lemma_two_pow_positive(idx as nat);
                lemma_div_denominator(q as int, two_pow(idx as nat), 2);
                assert(two_pow((idx + 1) as nat) == two_pow(idx as nat) * 2);
            }
            let send_val: bool = rest % 2 == 1;
            if let Some(addr) = &self.addresses[idx] {
                if self.last_bits[idx] != send_val {
                    bundle.send_parameter(addr.as_str(), OscValue::Bool(send_val));
                    self.last_bits[idx] = send_val;
                }
            }
            rest = rest / 2;
            idx += 1;
            proof {
                assert(self.last_bits@ =~= p.bits_after(q as int, idx as int));
                assert(bundle@ =~= out + p.direct_messages(value) + p.sign_messages(value)
                    + p.bit_messages(q as int, idx as int));
            }
        }
    }

    /// Checks that the bit count is one more than the highest bit that has an address.
    pub fn is_wf(&self) -> (r: bool)
        ensures
            r == self.wf(),
    {
        if self.num_bits > MAX_BITS {
            return false;
        }
        if self.num_bits > 0 && self.addresses[self.num_bits - 1].is_none() {
            assert(self@.addresses[self.num_bits - 1] is None);
            return false;
        }
        let mut i: usize = self.num_bits;
        while i < MAX_BITS
            invariant
                self.num_bits <= i <= MAX_BITS,
                forall|j: int| self.num_bits <= j < i ==> self@.addresses[j] is None,
            decreases MAX_BITS - i,
        {
            if self.addresses[i].is_some() {
                assert(self@.addresses[i as int] is Some);
                return false;
            }
            i += 1;
        }
        if self.num_bits > 0 {
            assert(self@.addresses[self.num_bits - 1] is Some);
        }
        true
    }

    /// One line that says what the descriptor offers.
    pub fn summary(&self) -> (line: String)
        ensures
            line@ == self@.summary(),
    {
        let mut parts: Vec<String> = Vec::new();
        if self.main_address.is_some() {
            parts.push(owned("float"));
        }
        if self.num_bits > 0 {
            let count = decimal_text(self.num_bits as u64);
            let word = if self.num_bits > 1 {
                " bit"
            } else {
                " bits"
            };
            parts.push(joined(count.as_str(), word));
        }
        if self.neg_address.is_some() {
            parts.push(owned("neg"));
        }
        assert(texts_view(parts@) =~= self@.elements());
        let mut line = joined(self.name.as_str(), ": ");
        let mut i: usize = 0;
        while i < parts.len()
            invariant
                i <= parts@.len(),
                line@ == self.name@ + ": "@ + join_plus(texts_view(parts@), i as int),
            decreases parts@.len() - i,
        {
            if i > 0 {
                line.append(" + ");
            }
            line.append(parts[i].as_str());
            i += 1;
            assert(line@ =~= self.name@ + ": "@ + join_plus(texts_view(parts@), i as int));
        }
        line
    }
}

} // verus!
