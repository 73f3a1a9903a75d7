//! Instance identifiers of sub-orchestrations, and generated identifiers.
use crate::text::{self, join2, join3, starts_with, u64_text};
use crate::time::{self, wall_clock_nanos};
use vstd::prelude::*;

verus! {

/// Prefix of generated sub-orchestration instance IDs.
pub const SUB_ORCH_AUTO_PREFIX: &'static str = "sub::";

/// Prefix of placeholder instance IDs, before an event ID is assigned.
pub const SUB_ORCH_PENDING_PREFIX: &'static str = "sub::pending_";

/// Prefix of the names of built-in activities.
pub const SYSCALL_ACTIVITY_PREFIX: &'static str = "__duroxide_syscall:";

/// The built-in activity that makes an identifier.
pub const SYSCALL_ACTIVITY_NEW_GUID: &'static str = "__duroxide_syscall:new_guid";

/// The built-in activity that reads the clock.
pub const SYSCALL_ACTIVITY_UTC_NOW_MS: &'static str = "__duroxide_syscall:utc_now_ms";

/// The built-in activity that reads a key of another instance.
pub const SYSCALL_ACTIVITY_GET_KV_VALUE: &'static str = "__duroxide_syscall:get_kv_value";

/// The full instance ID of a child: generated IDs get the parent's in front.
pub open spec fn child_instance_id(parent: Seq<char>, child: Seq<char>) -> Seq<char> {
    if text::has_prefix(child, SUB_ORCH_AUTO_PREFIX@) {
        parent + "::"@ + child
    } else {
        child
    }
}

/// The placeholder instance ID of the sub-orchestration with this token.
pub open spec fn pending_instance_id(token: nat) -> Seq<char> {
    SUB_ORCH_PENDING_PREFIX@ + text::decimal(token)
}

/// Whether a sub-orchestration instance ID was generated, and so needs the
/// parent's in front. Explicit IDs are used exactly as given.
pub fn is_auto_generated_sub_orch_id(instance: &str) -> (r: bool)
    ensures
        r == text::has_prefix(instance@, SUB_ORCH_AUTO_PREFIX@),
{
    starts_with(instance, SUB_ORCH_AUTO_PREFIX)
}

/// The full instance ID of a child: `{parent}::{child}` for a generated ID,
/// and an explicit one as it is.
pub fn build_child_instance_id(parent_instance: &str, child_instance: &str) -> (r: String)
    ensures
        r@ == child_instance_id(parent_instance@, child_instance@),
{
    if is_auto_generated_sub_orch_id(child_instance) {
        join3(parent_instance, "::", child_instance)
    } else {
        child_instance.to_string()
    }
}

/// The placeholder instance ID for a token.
pub fn pending_id(token: u64) -> (r: String)
    ensures
        r@ == pending_instance_id(token as nat),
{
    join2(SUB_ORCH_PENDING_PREFIX, u64_text(token).as_str())
}

/// Children of different parents get different IDs when these are generated
/// from the same child ID.
pub proof fn law_generated_ids_keep_parents_apart(
    p: Seq<char>,
    q: Seq<char>,
    child: Seq<char>,
)
    requires
        text::has_prefix(child, SUB_ORCH_AUTO_PREFIX@),
        p != q,
    ensures
        child_instance_id(p, child) != child_instance_id(q, child),
{
    let a = child_instance_id(p, child);
    let b = child_instance_id(q, child);
    if a == b {
        assert(a.len() == p.len() + "::"@.len() + child.len());
        assert(b.len() == q.len() + "::"@.len() + child.len());
        assert(p =~= a.subrange(0, p.len() as int));
        assert(q =~= b.subrange(0, q.len() as int));
    }
}

/// An explicit child ID does not depend on the parent.
pub proof fn law_explicit_ids_are_kept(p: Seq<char>, child: Seq<char>)
    requires
        !text::has_prefix(child, SUB_ORCH_AUTO_PREFIX@),
    ensures
        child_instance_id(p, child) == child,
{
}

/// A placeholder counts as generated, so a child under one gets its parent's
/// ID in front.
pub proof fn law_placeholders_are_generated(token: nat)
    ensures
        text::has_prefix(pending_instance_id(token), SUB_ORCH_AUTO_PREFIX@),
{
    reveal_strlit("sub::");
    reveal_strlit("sub::pending_");
    let s = pending_instance_id(token);
    assert(s.subrange(0, 5) =~= "sub::"@);
}

/// The hexadecimal digit `d`, in lower case.
pub open spec fn hex_char(d: nat) -> char
    recommends
        d < 16,
{
    if d < 10 {
        (('0' as nat) + d) as char
    } else {
        (('a' as nat) + (d - 10)) as char
    }
}

/// The low `width` hexadecimal digits of `n`, most significant first.
pub open spec fn hex_fixed(n: nat, width: nat) -> Seq<char>
    decreases width,
{
    if width == 0 {
        Seq::empty()
    } else {
        hex_fixed(n / 16, (width - 1) as nat).push(hex_char(n % 16))
    }
}

/// One hexadecimal digit as text.
fn hex_digit_text(d: u64) -> (r: &'static str)
    requires
        d < 16,
    ensures
        r@ == seq![hex_char(d as nat)],
{
    proof {
        reveal_strlit("0");
        reveal_strlit("1");
        reveal_strlit("2");
        reveal_strlit("3");
        reveal_strlit("4");
        reveal_strlit("5");
        reveal_strlit("6");
        reveal_strlit("7");
        reveal_strlit("8");
        reveal_strlit("9");
        reveal_strlit("a");
        reveal_strlit("b");
        reveal_strlit("c");
        reveal_strlit("d");
        reveal_strlit("e");
        reveal_strlit("f");
    }
    match d {
        0 => "0",
        1 => "1",
        2 => "2",
        3 => "3",
        4 => "4",
        5 => "5",
        6 => "6",
        7 => "7",
        8 => "8",
        9 => "9",
        10 => "a",
        11 => "b",
        12 => "c",
        13 => "d",
        14 => "e",
        _ => "f",
    }
}

/// The low `width` hexadecimal digits of `n`.
fn hex_text(n: u64, width: u32) -> (r: String)
    ensures
        r@ == hex_fixed(n as nat, width as nat),
    decreases width,
{
    if width == 0 {
        String::new()
    } else {
        let mut s = hex_text(n / 16, width - 1);
        s.append(hex_digit_text(n % 16));
        s
    }
}

/// The identifier made from a time stamp and a counter: 32 hexadecimal digits
/// in five groups.
pub open spec fn guid(timestamp: nat, counter: nat) -> Seq<char> {
    hex_fixed((timestamp / 79_228_162_514_264_337_593_543_950_336) % 4_294_967_296, 8) + "-"@
        + hex_fixed((timestamp / 1_208_925_819_614_629_174_706_176) % 65_536, 4) + "-"@
        + hex_fixed(counter % 65_536, 4) + "-"@
        + hex_fixed((timestamp / 18_446_744_073_709_551_616) % 65_536, 4) + "-"@
        + hex_fixed(timestamp % 281_474_976_710_656, 12)
}

/// The identifier for a time stamp in nanoseconds and a counter. The groups
/// hold bits 96 and up, bits 80 to 95, the low 16 bits of the counter, bits 64
/// to 79, and the low 48 bits of the time stamp.
pub fn guid_text(timestamp: u128, counter: u32) -> (r: String)
    ensures
        r@ == guid(timestamp as nat, counter as nat),
{
    let high: u64 = ((timestamp / 79_228_162_514_264_337_593_543_950_336u128)
        % 4_294_967_296u128) as u64;
    let upper: u64 = ((timestamp / 1_208_925_819_614_629_174_706_176u128) % 65_536u128) as u64;
    let middle: u64 = ((timestamp / 18_446_744_073_709_551_616u128) % 65_536u128) as u64;
    let low: u64 = (timestamp % 281_474_976_710_656u128) as u64;
    let mut s = hex_text(high, 8);
    s.append("-");
    s.append(hex_text(upper, 4).as_str());
    s.append("-");
    s.append(hex_text((counter % 65_536) as u64, 4).as_str());
    s.append("-");
    s.append(hex_text(middle, 4).as_str());
    s.append("-");
    s.append(hex_text(low, 12).as_str());
    s
}

/// A new identifier, from the wall clock and the caller's counter.
pub fn generate_guid(counter: u32) -> (r: String)
    ensures
        exists|reading: Option<(u64, u32)>|
            r@ == guid(#[trigger] time::epoch_nanos(reading), counter as nat),
{
    let timestamp: u128 = wall_clock_nanos();
    guid_text(timestamp, counter)
}

proof fn lemma_hex_len(n: nat, width: nat)
    ensures
        hex_fixed(n, width).len() == width,
    decreases width,
{
    if width > 0 {
        lemma_hex_len(n / 16, (width - 1) as nat);
    }
}

/// `16` to the power `w`.
pub open spec fn pow16(w: nat) -> nat
    decreases w,
{
    if w == 0 {
        1
    } else {
        16 * pow16((w - 1) as nat)
    }
}

proof fn lemma_hex_injective(m: nat, n: nat, width: nat)
    requires
        m < pow16(width),
        n < pow16(width),
        hex_fixed(m, width) == hex_fixed(n, width),
    ensures
        m == n,
    decreases width,
{
    if width > 0 {
        let a = hex_fixed(m / 16, (width - 1) as nat);
        let b = hex_fixed(n / 16, (width - 1) as nat);
        let x = hex_fixed(m, width);
        let y = hex_fixed(n, width);
        lemma_hex_len(m / 16, (width - 1) as nat);
        lemma_hex_len(n / 16, (width - 1) as nat);
        assert(x.drop_last() =~= a);
        assert(y.drop_last() =~= b);
        assert(x.last() == hex_char(m % 16));
        assert(y.last() == hex_char(n % 16));
        assert(m % 16 == n % 16);
        lemma_hex_injective(m / 16, n / 16, (width - 1) as nat);
    }
}

/// At one time stamp, counters that differ in their low 16 bits give different
/// identifiers.
pub proof fn law_counter_tells_guids_apart(timestamp: nat, c: nat, d: nat)
    requires
        c % 65_536 != d % 65_536,
    ensures
        guid(timestamp, c) != guid(timestamp, d),
{
    reveal_strlit("-");
    let g = guid(timestamp, c);
    let h = guid(timestamp, d);
    let t1 = (timestamp / 79_228_162_514_264_337_593_543_950_336) % 4_294_967_296;
    let t2 = (timestamp / 1_208_925_819_614_629_174_706_176) % 65_536;
    let t3 = (timestamp / 18_446_744_073_709_551_616) % 65_536;
    let t4 = timestamp % 281_474_976_710_656;
    lemma_hex_len(t1, 8);
    lemma_hex_len(t2, 4);
    lemma_hex_len(t3, 4);
    lemma_hex_len(t4, 12);
    lemma_hex_len(c % 65_536, 4);
    lemma_hex_len(d % 65_536, 4);
    assert(g.subrange(14, 18) =~= hex_fixed(c % 65_536, 4));
    assert(h.subrange(14, 18) =~= hex_fixed(d % 65_536, 4));
    if g == h {
        assert(pow16(4) == 65_536) by {
            reveal_with_fuel(pow16, 5);
        }
        lemma_hex_injective(c % 65_536, d % 65_536, 4);
    }
}

/// The instance of a child is the one that was given; one that was generated is put
/// under that of its parent, so that children of different parents differ.
pub proof fn law_a_generated_child_is_put_under_its_parent(
    parent: &str,
    child: &str,
    rest: Seq<char>,
    r: String,
    generated: bool,
)
    requires
        call_ensures(build_child_instance_id, (parent, child), r),
        call_ensures(is_auto_generated_sub_orch_id, (child,), generated),
    ensures
        child@ == "sub::"@ + rest ==> generated && r@ == parent@ + "::"@ + child@,
        !generated ==> r@ == child@,
        generated ==> exists|tail: Seq<char>| child@ == "sub::"@ + tail,
{
    if child@ == "sub::"@ + rest {
        assert(child@.subrange(0, "sub::"@.len() as int) =~= "sub::"@);
    }
    if generated {
        let tail = child@.skip("sub::"@.len() as int);
        assert(child@ =~= "sub::"@ + tail);
    }
}

/// The placeholder of a child is made of its token.
pub proof fn law_a_placeholder_holds_its_token(token: u64, r: String)
    requires
        call_ensures(pending_id, (token,), r),
    ensures
        r@ == "sub::pending_"@ + text::decimal(token as nat),
{
}

/// `s` writes `n` in hexadecimal: the digit at `i` is that of weight 16 to the
/// power of the places after it.
pub open spec fn writes_hex(s: Seq<char>, n: nat) -> bool
    decreases s.len(),
{
    if s.len() == 0 {
        n == 0
    } else {
        let d = s.last() as int;
        let v = if d >= 'a' as int {
            d - 'a' as int + 10
        } else {
            d - '0' as int
        };
        &&& '0' as int <= d <= '9' as int || 'a' as int <= d <= 'f' as int
        &&& v == n % 16
        &&& writes_hex(s.drop_last(), n / 16)
    }
}

proof fn lemma_writes_hex(n: nat, width: nat)
    requires
        n < pow16(width),
    ensures
        writes_hex(hex_fixed(n, width), n),
        hex_fixed(n, width).len() == width,
    decreases width,
{
    if width > 0 {
        lemma_writes_hex(n / 16, (width - 1) as nat);
        let s = hex_fixed(n, width);
        assert(s.drop_last() =~= hex_fixed(n / 16, (width - 1) as nat));
        assert(s.last() == hex_char(n % 16));
    }
}

/// A generated identifier has the shape 8-4-4-4-12. Its parts are written in
/// hexadecimal: the third is the low 16 bits of the counter, the fifth the low 48
/// bits of the time, the fourth the 16 bits from bit 64 on, the second the 16 bits
/// from bit 80 on, and the first the 32 bits from bit 96 on.
pub proof fn law_an_identifier_has_its_parts(timestamp: u128, counter: u32, r: String)
    requires
        call_ensures(guid_text, (timestamp, counter), r),
    ensures
        r@.len() == 36,
        r@[8] == '-' && r@[13] == '-' && r@[18] == '-' && r@[23] == '-',
        writes_hex(
            r@.subrange(0, 8),
            (timestamp as nat / 0x1_0000_0000_0000_0000_0000_0000) % 0x1_0000_0000,
        ),
        writes_hex(
            r@.subrange(9, 13),
            (timestamp as nat / 0x1_0000_0000_0000_0000_0000) % 0x1_0000,
        ),
        writes_hex(r@.subrange(14, 18), counter as nat % 0x1_0000),
        writes_hex(r@.subrange(19, 23), (timestamp as nat / 0x1_0000_0000_0000_0000) % 0x1_0000),
        writes_hex(r@.subrange(24, 36), timestamp as nat % 0x1_0000_0000_0000),
{
    reveal_strlit("-");
    let t = timestamp as nat;
    let t1 = (t / 79_228_162_514_264_337_593_543_950_336) % 4_294_967_296;
    let t2 = (t / 1_208_925_819_614_629_174_706_176) % 65_536;
    let t3 = (t / 18_446_744_073_709_551_616) % 65_536;
    let t4 = t % 281_474_976_710_656;
    let c = counter as nat % 65_536;
    assert(pow16(4) == 65_536) by {
        reveal_with_fuel(pow16, 5);
    }
    assert(pow16(8) == 4_294_967_296) by {
        reveal_with_fuel(pow16, 9);
    }
    assert(pow16(12) == 281_474_976_710_656) by {
        reveal_with_fuel(pow16, 13);
    }
    lemma_writes_hex(t1, 8);
    lemma_writes_hex(t2, 4);
    lemma_writes_hex(t3, 4);
    lemma_writes_hex(t4, 12);
    lemma_writes_hex(c, 4);
    let g = r@;
    assert(g.subrange(0, 8) =~= hex_fixed(t1, 8));
    assert(g.subrange(9, 13) =~= hex_fixed(t2, 4));
    assert(g.subrange(14, 18) =~= hex_fixed(c, 4));
    assert(g.subrange(19, 23) =~= hex_fixed(t3, 4));
    assert(g.subrange(24, 36) =~= hex_fixed(t4, 12));
}

} // verus!
