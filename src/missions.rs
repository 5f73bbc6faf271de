use vstd::prelude::*;
use vstd::string::*;

verus! {

/// The decimal digit `d`.
pub open spec fn digit(d: int) -> char {
    seq!['0', '1', '2', '3', '4', '5', '6', '7', '8', '9'][d]
}

/// The mission letter for `d`: `A` for zero through `J` for nine.
pub open spec fn letter(d: int) -> char {
    seq!['A', 'B', 'C', 'D', 'E', 'F', 'G', 'H', 'I', 'J'][d]
}

/// The decimal numeral of `n`, without leading zeros.
pub open spec fn dec(n: nat) -> Seq<char>
    decreases n,
{
    if n < 10 {
        seq![digit(n as int)]
    } else {
        dec(n / 10) + seq![digit((n % 10) as int)]
    }
}

/// The octal numeral of `n`, without leading zeros.
pub open spec fn oct(n: nat) -> Seq<char>
    decreases n,
{
    if n < 8 {
        seq![digit(n as int)]
    } else {
        oct(n / 8) + seq![digit((n % 8) as int)]
    }
}

/// The decimal numeral of an integer, with a minus sign when negative.
pub open spec fn int_text(x: int) -> Seq<char> {
    if x < 0 {
        seq!['-'] + dec((-x) as nat)
    } else {
        dec(x as nat)
    }
}

/// An integer written at least two characters wide, padded with zeros.
pub open spec fn pad2(x: int) -> Seq<char> {
    if 0 <= x < 10 {
        seq!['0'] + dec(x as nat)
    } else {
        int_text(x)
    }
}

/// The octal numeral of `n`, padded with zeros to four characters.
pub open spec fn oct4(n: nat) -> Seq<char> {
    if oct(n).len() < 4 {
        Seq::new((4 - oct(n).len()) as nat, |_k: int| '0') + oct(n)
    } else {
        oct(n)
    }
}

/// The name of the `i`-th mission: four letters for its hundred-thousands,
/// ten-thousands, thousands and hundreds digits, then its tens and units
/// digits.
pub open spec fn mission_name(i: int) -> Seq<char> {
    seq![
        letter((i / 100000) % 10),
        letter((i / 10000) % 10),
        letter((i / 1000) % 10),
        letter((i / 100) % 10),
        digit((i / 10) % 10),
        digit(i % 10),
    ]
}

/// The first lines of an order for day `day`: exercise, message
/// identification and acknowledgement.
pub open spec fn ato_header(day: int) -> Seq<char> {
    "EXER/TNG//\nMSGID/ATO/LAB/ATOORB"@ + int_text(day) + "/MAR/CHG//\nAKNLDG/NO//"@
}

/// The time frame line: from one minute past midnight to one minute to
/// midnight of day `day`.
pub open spec fn ato_timeframe(day: int) -> Seq<char> {
    "TIMEFRAM/FROM:"@ + pad2(day) + "0001ZFEB2012/TO:"@ + pad2(day) + "2359ZFEB2012//"@
}

pub open spec fn ato_tasking() -> Seq<char> {
    "HEADING/TASKING//\nTSKCNTRY/US//\nSVCTASK/A//\nTASKUNIT/66 BAD/ICAO:KMER//"@
}

pub open spec fn ato_footer() -> Seq<char> {
    "DECL/ORIG:SOURCE/15G/-/X7//"@
}

/// Missions take off in turn at 04:10, 05:10, ... 23:10, then start over.
pub open spec fn start_hour(k: int) -> int {
    4 + k % 20
}

/// A mission lands three hours after it takes off, at 23:30 at the latest.
pub open spec fn end_hour(k: int) -> int {
    if k % 20 + 3 > 19 { 23 } else { k % 20 + 7 }
}

pub open spec fn end_minute(k: int) -> int {
    if k % 20 + 3 > 19 { 30 } else { 0 }
}

/// The mission's number line, up to its name.
pub open spec fn message_opening(num: nat) -> Seq<char> {
    "AMSNDAT/"@ + dec(num) + "/-/-/-/CAP/-/15M/DEPLOC:KMER/ARRLOC:KMER//\nMSNACFT/1/ACTYP:MIG29/"@
}

/// The mission's name, its aircraft's mode codes in octal, and the start
/// of its location line.
pub open spec fn message_aircraft(msn: Seq<char>, num: nat) -> Seq<char> {
    msn + "/BEST/-/101/2"@ + oct4(num) + "/3"@ + oct4(num) + "//\nAMSNLOC/"@
}

/// The mission's flight window on day `day`.
pub open spec fn message_window(k: int, day: int) -> Seq<char> {
    pad2(day) + pad2(start_hour(k)) + pad2(10) + "ZFEB/"@ + pad2(day) + pad2(end_hour(k))
        + pad2(end_minute(k)) + "ZFEB/A10//"@
}

/// The three lines that task the `k`-th mission (counted from zero), named
/// `msn`, on day `day`: its number, its aircraft and its flight window.
pub open spec fn mission_message(k: int, msn: Seq<char>, day: int) -> Seq<char> {
    message_opening((k + 1) as nat) + message_aircraft(msn, (k + 1) as nat) + message_window(k, day)
}

/// Lines joined by single newlines.
pub open spec fn joined_lines(ms: Seq<Seq<char>>) -> Seq<char>
    decreases ms.len(),
{
    if ms.len() == 0 {
        seq![]
    } else if ms.len() == 1 {
        ms[0]
    } else {
        joined_lines(ms.drop_last()) + seq!['\n'] + ms.last()
    }
}

pub open spec fn ato_messages(missions: Seq<Seq<char>>, day: int) -> Seq<Seq<char>> {
    Seq::new(missions.len(), |k: int| mission_message(k, missions[k], day))
}

/// The whole air tasking order for day `day`: header, time frame, tasking
/// lines, one message per mission, and the footer, one part per line.
pub open spec fn ato_text(missions: Seq<Seq<char>>, day: int) -> Seq<char> {
    ato_header(day) + seq!['\n'] + ato_timeframe(day) + seq!['\n'] + ato_tasking() + seq!['\n']
        + joined_lines(ato_messages(missions, day)) + seq!['\n'] + ato_footer()
}

fn digit_str(d: u64) -> (r: &'static str)
    requires
        d < 10,
    ensures
        r@ == seq![digit(d as int)],
{
    match d {
        0 => {
            proof {
                reveal_strlit("0");
            }
            assert("0"@ =~= seq![digit(0)]);
            "0"
        },
        1 => {
            proof {
                reveal_strlit("1");
            }
            assert("1"@ =~= seq![digit(1)]);
            "1"
        },
        2 => {
            proof {
                reveal_strlit("2");
            }
            assert("2"@ =~= seq![digit(2)]);
            "2"
        },
        3 => {
            proof {
                reveal_strlit("3");
            }
            assert("3"@ =~= seq![digit(3)]);
            "3"
        },
        4 => {
            proof {
                reveal_strlit("4");
            }
            assert("4"@ =~= seq![digit(4)]);
            "4"
        },
        5 => {
            proof {
                reveal_strlit("5");
            }
            assert("5"@ =~= seq![digit(5)]);
            "5"
        },
        6 => {
            proof {
                reveal_strlit("6");
            }
            assert("6"@ =~= seq![digit(6)]);
            "6"
        },
        7 => {
            proof {
                reveal_strlit("7");
            }
            assert("7"@ =~= seq![digit(7)]);
            "7"
        },
        8 => {
            proof {
                reveal_strlit("8");
            }
            assert("8"@ =~= seq![digit(8)]);
            "8"
        },
        _ => {
            proof {
                reveal_strlit("9");
            }
            assert("9"@ =~= seq![digit(9)]);
            "9"
        },
    }
}

fn letter_str(d: u64) -> (r: &'static str)
    requires
        d < 10,
    ensures
        r@ == seq![letter(d as int)],
{
    match d {
        0 => {
            proof {
                reveal_strlit("A");
            }
            assert("A"@ =~= seq![letter(0)]);
            "A"
        },
        1 => {
            proof {
                reveal_strlit("B");
            }
            assert("B"@ =~= seq![letter(1)]);
            "B"
        },
        2 => {
            proof {
                reveal_strlit("C");
            }
            assert("C"@ =~= seq![letter(2)]);
            "C"
        },
        3 => {
            proof {
                reveal_strlit("D");
            }
            assert("D"@ =~= seq![letter(3)]);
            "D"
        },
        4 => {
            proof {
                reveal_strlit("E");
            }
            assert("E"@ =~= seq![letter(4)]);
            "E"
        },
        5 => {
            proof {
                reveal_strlit("F");
            }
            assert("F"@ =~= seq![letter(5)]);
            "F"
        },
        6 => {
            proof {
                reveal_strlit("G");
            }
            assert("G"@ =~= seq![letter(6)]);
            "G"
        },
        7 => {
            proof {
                reveal_strlit("H");
            }
            assert("H"@ =~= seq![letter(7)]);
            "H"
        },
        8 => {
            proof {
                reveal_strlit("I");
            }
            assert("I"@ =~= seq![letter(8)]);
            "I"
        },
        _ => {
            proof {
                reveal_strlit("J");
            }
            assert("J"@ =~= seq![letter(9)]);
            "J"
        },
    }
}

fn push_dec(out: &mut String, n: u64)
    ensures
        final(out)@ == old(out)@ + dec(n as nat),
    decreases n,
{
    if n >= 10 {
        push_dec(out, n / 10);
    }
    out.append(digit_str(n % 10));
    proof {
        assert(old(out)@ + dec(n as nat) =~= if n >= 10 {
            old(out)@ + dec((n / 10) as nat) + seq![digit((n % 10) as int)]
        } else {
            old(out)@ + seq![digit((n % 10) as int)]
        });
    }
}

fn push_oct(out: &mut String, n: u64)
    ensures
        final(out)@ == old(out)@ + oct(n as nat),
    decreases n,
{
    if n >= 8 {
        push_oct(out, n / 8);
    }
    out.append(digit_str(n % 8));
    proof {
        assert(old(out)@ + oct(n as nat) =~= if n >= 8 {
            old(out)@ + oct((n / 8) as nat) + seq![digit((n % 8) as int)]
        } else {
            old(out)@ + seq![digit((n % 8) as int)]
        });
    }
}

fn push_int(out: &mut String, x: i64)
    ensures
        final(out)@ == old(out)@ + int_text(x as int),
{
    if x < 0 {
        proof {
            reveal_strlit("-");
        }
        out.append("-");
        let m: u64 = (0i128 - x as i128) as u64;
        push_dec(out, m);
        assert(old(out)@ + int_text(x as int) =~= old(out)@ + seq!['-'] + dec(m as nat));
    } else {
        push_dec(out, x as u64);
    }
}

fn push_pad2(out: &mut String, x: i64)
    ensures
        final(out)@ == old(out)@ + pad2(x as int),
{
    if 0 <= x && x < 10 {
        proof {
            reveal_strlit("0");
        }
        out.append("0");
        push_dec(out, x as u64);
        assert(old(out)@ + pad2(x as int) =~= old(out)@ + seq!['0'] + dec(x as nat));
    } else {
        push_int(out, x);
    }
}

proof fn lemma_oct_len(n: nat)
    ensures
        n < 8 ==> oct(n).len() == 1,
        8 <= n < 64 ==> oct(n).len() == 2,
        64 <= n < 512 ==> oct(n).len() == 3,
        512 <= n ==> oct(n).len() >= 4,
    decreases n,
{
    if n >= 8 {
        lemma_oct_len(n / 8);
    }
}

fn push_oct4(out: &mut String, n: u64)
    ensures
        final(out)@ == old(out)@ + oct4(n as nat),
{
    proof {
        lemma_oct_len(n as nat);
        reveal_strlit("0");
        reveal_strlit("00");
        reveal_strlit("000");
    }
    let ghost o = oct(n as nat);
    if n < 8 {
        out.append("000");
        assert(Seq::new((4 - o.len()) as nat, |_k: int| '0') =~= "000"@);
    } else if n < 64 {
        out.append("00");
        assert(Seq::new((4 - o.len()) as nat, |_k: int| '0') =~= "00"@);
    } else if n < 512 {
        out.append("0");
        assert(Seq::new((4 - o.len()) as nat, |_k: int| '0') =~= "0"@);
    }
    push_oct(out, n);
    assert(out@ =~= old(out)@ + oct4(n as nat));
}

/// The names of the first `num_msns` missions, in order; none when
/// `num_msns` is not positive. At most a million missions can be named.
pub fn create_missions(num_msns: i64) -> (r: Vec<String>)
    requires
        num_msns <= 1_000_000,
    ensures
        r@.len() == (if num_msns < 0 { 0 } else { num_msns as int }),
        forall|k: int| 0 <= k < r@.len() ==> (#[trigger] r@[k])@ == mission_name(k),
{
    let mut missions: Vec<String> = Vec::new();
    let mut i: i64 = 0;
    while i < num_msns
        invariant
            0 <= i,
            num_msns <= 1_000_000,
            i <= num_msns || i == 0,
            missions@.len() == i,
            forall|k: int| 0 <= k < missions@.len() ==> (#[trigger] missions@[k])@ == mission_name(k),
        decreases num_msns - i,
    {
        let u = i as u64;
        let mut name = String::new();
        name.append(letter_str((u / 100_000) % 10));
        name.append(letter_str((u / 10_000) % 10));
        name.append(letter_str((u / 1_000) % 10));
        name.append(letter_str((u / 100) % 10));
        name.append(digit_str((u / 10) % 10));
        name.append(digit_str(u % 10));
        assert(name@ =~= mission_name(i as int));
        missions.push(name);
        i = i + 1;
    }
    missions
}

fn push_message(out: &mut String, k: usize, msn: &String, day: i64)
    requires
        k < usize::MAX,
    ensures
        final(out)@ == old(out)@ + mission_message(k as int, msn@, day as int),
{
    let num: u64 = (k + 1) as u64;
    out.append("AMSNDAT/");
    push_dec(out, num);
    out.append("/-/-/-/CAP/-/15M/DEPLOC:KMER/ARRLOC:KMER//\nMSNACFT/1/ACTYP:MIG29/");
    let ghost o1 = out@;
    assert(o1 =~= old(out)@ + message_opening(num as nat));
    out.append(msn.as_str());
    out.append("/BEST/-/101/2");
    push_oct4(out, num);
    out.append("/3");
    push_oct4(out, num);
    out.append("//\nAMSNLOC/");
    let ghost o2 = out@;
    assert(o2 =~= o1 + message_aircraft(msn@, num as nat));
    push_window(out, k, day);
    assert(out@ =~= old(out)@ + mission_message(k as int, msn@, day as int));
}

fn push_window(out: &mut String, k: usize, day: i64)
    ensures
        final(out)@ == old(out)@ + message_window(k as int, day as int),
{
    let slot: usize = k % 20;
    let end_hour: i64 = if slot + 3 > 19 { 23 } else { (slot + 7) as i64 };
    let end_minute: i64 = if slot + 3 > 19 { 30 } else { 0 };
    push_pad2(out, day);
    push_pad2(out, (4 + slot) as i64);
    push_pad2(out, 10);
    out.append("ZFEB/");
    push_pad2(out, day);
    push_pad2(out, end_hour);
    push_pad2(out, end_minute);
    out.append("ZFEB/A10//");
    assert(out@ =~= old(out)@ + message_window(k as int, day as int));
}

/// The air tasking order for day `day` that tasks the given missions, in
/// order.
pub fn create_ato(missions: Vec<String>, day: i64) -> (r: String)
    ensures
        r@ == ato_text(missions@.map_values(|m: String| m@), day as int),
{
    let ghost names = missions@.map_values(|m: String| m@);
    let ghost msgs = ato_messages(names, day as int);
    proof {
        reveal_strlit("\n");
    }
    let mut out = String::new();
    out.append("EXER/TNG//\nMSGID/ATO/LAB/ATOORB");
    push_int(&mut out, day);
    out.append("/MAR/CHG//\nAKNLDG/NO//");
    out.append("\n");
    out.append("TIMEFRAM/FROM:");
    push_pad2(&mut out, day);
    out.append("0001ZFEB2012/TO:");
    push_pad2(&mut out, day);
    out.append("2359ZFEB2012//");
    out.append("\n");
    out.append("HEADING/TASKING//\nTSKCNTRY/US//\nSVCTASK/A//\nTASKUNIT/66 BAD/ICAO:KMER//");
    out.append("\n");
    let ghost pre = out@;
    assert(pre =~= ato_header(day as int) + seq!['\n'] + ato_timeframe(day as int) + seq!['\n'] + ato_tasking()
        + seq!['\n']);
    let mut k: usize = 0;
    while k < missions.len()
        invariant
            k <= missions@.len(),
            names == missions@.map_values(|m: String| m@),
            msgs == ato_messages(names, day as int),
            out@ == pre + joined_lines(msgs.take(k as int)),
        decreases missions@.len() - k,
    {
        proof {
            reveal_strlit("\n");
        }
        let ghost before = out@;
        if k > 0 {
            out.append("\n");
        }
        let ghost sep = out@;
        push_message(&mut out, k, &missions[k], day);
        proof {
            let t = msgs.take(k + 1);
            assert(t.drop_last() =~= msgs.take(k as int));
            assert(t.last() == msgs[k as int]);
            assert(msgs[k as int] == mission_message(k as int, missions@[k as int]@, day as int));
            if k == 0 {
                assert(joined_lines(t) == t[0]);
                assert(out@ =~= pre + joined_lines(t));
            } else {
                assert(joined_lines(t) == joined_lines(t.drop_last()) + seq!['\n'] + t.last());
                assert(sep =~= before + seq!['\n']);
                assert(out@ =~= pre + joined_lines(t));
            }
        }
        k = k + 1;
    }
    assert(msgs.take(k as int) =~= msgs);
    out.append("\n");
    out.append("DECL/ORIG:SOURCE/15G/-/X7//");
    assert(out@ =~= ato_text(names, day as int));
    out
}

/// Division that rounds toward zero.
pub open spec fn div_toward_zero(a: int, b: int) -> int {
    let q = (if a < 0 { -a } else { a }) / (if b < 0 { -b } else { b });
    if (a < 0) != (b < 0) { -q } else { q }
}

/// The longest schedule, in days, that one month of orders can hold.
pub const MAX_DAYS: i64 = 28;

/// Why a schedule of orders was refused.
#[derive(Clone, Copy, Debug, PartialEq, Eq, Structural)]
pub enum ScheduleError {
    /// More days than one month of orders holds.
    TooManyDays,
}

/// How many missions each day's order carries when `num_missions` are
/// spread over `day_count` days: the quotient rounded toward zero. More
/// than `MAX_DAYS` days are refused.
pub fn missions_per_day(num_missions: i64, day_count: i64) -> (r: Result<i64, ScheduleError>)
    requires
        day_count != 0,
        !(num_missions == i64::MIN && day_count == -1),
    ensures
        day_count > MAX_DAYS ==> r == Err::<i64, ScheduleError>(ScheduleError::TooManyDays),
        day_count <= MAX_DAYS ==> r == Ok::<i64, ScheduleError>(
            div_toward_zero(num_missions as int, day_count as int) as i64,
        ),
        r matches Ok(q) ==> q as int == div_toward_zero(num_missions as int, day_count as int),
{
    if day_count > MAX_DAYS {
        return Err(ScheduleError::TooManyDays);
    }
    let a: u64 = if num_missions < 0 { (0i128 - num_missions as i128) as u64 } else { num_missions as u64 };
    let b: u64 = if day_count < 0 { (0i128 - day_count as i128) as u64 } else { day_count as u64 };
    let q: u64 = a / b;
    proof {
        if b == 1 {
            assert(q == a) by (nonlinear_arith)
                requires q == a / b, b == 1;
        } else {
            assert(q <= a / 2) by (nonlinear_arith)
                requires q == a / b, b >= 2;
        }
    }
    if (num_missions < 0) != (day_count < 0) {
        Ok((0i128 - q as i128) as i64)
    } else {
        Ok(q as i64)
    }
}

} // verus!
