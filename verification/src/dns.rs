//! Classifying name-lookup outcomes and the bounded polling algorithm.
//!
//! The resolver itself lives outside this crate; callers perform the
//! lookup and hand the outcome in as a [`LookupOutcome`]. The crucial
//! distinction is between an affirmative "no records" answer, which is
//! the only outcome that triggers repair, and every other failure, which
//! must surface to the operator instead.

use vstd::prelude::*;

verus! {

/// An IPv4 address, most significant octet first.
#[derive(Clone, Copy, Debug)]
pub struct Ipv4 {
    pub octets: [u8; 4],
}

/// The raw outcome of one address lookup, as the caller observed it.
pub enum LookupOutcome {
    /// The lookup answered with these addresses, in answer order.
    Records { addrs: Vec<Ipv4> },
    /// An authoritative source affirmed that no records exist.
    NoRecords,
    /// Any other failure: timeout, server failure, malformed response,
    /// configuration miss.
    Failure { message: String },
}

/// What a lookup outcome means for the reconciler.
pub enum Resolution {
    /// Addresses were found; `addresses` is the comma-joined list in
    /// answer order.
    Resolved { addresses: String },
    /// The name affirmatively has no records: repair is warranted.
    Unresolved,
    /// An operational fault that must not be mistaken for an
    /// unregistered name.
    Error { cause: String },
}

/// The decimal digit `d` as a character.
pub open spec fn dec_digit(d: int) -> char {
    if d == 0 {
        '0'
    } else if d == 1 {
        '1'
    } else if d == 2 {
        '2'
    } else if d == 3 {
        '3'
    } else if d == 4 {
        '4'
    } else if d == 5 {
        '5'
    } else if d == 6 {
        '6'
    } else if d == 7 {
        '7'
    } else if d == 8 {
        '8'
    } else {
        '9'
    }
}

/// The decimal digits of `n`, most significant first, no leading zeros.
pub open spec fn dec_chars(n: int) -> Seq<char>
    decreases n,
{
    if n < 10 {
        seq![dec_digit(n)]
    } else {
        dec_chars(n / 10).push(dec_digit(n % 10))
    }
}

/// Dotted-quad text of an IPv4 address.
pub open spec fn ipv4_chars(ip: Ipv4) -> Seq<char> {
    dec_chars(ip.octets[0] as int) + seq!['.'] + dec_chars(ip.octets[1] as int) + seq!['.']
        + dec_chars(ip.octets[2] as int) + seq!['.'] + dec_chars(ip.octets[3] as int)
}

/// Comma-joined dotted-quad text of an address list, in list order.
pub open spec fn ipv4_list_chars(addrs: Seq<Ipv4>) -> Seq<char>
    decreases addrs.len(),
{
    if addrs.len() == 0 {
        Seq::<char>::empty()
    } else if addrs.len() == 1 {
        ipv4_chars(addrs[0])
    } else {
        ipv4_chars(addrs[0]) + seq![','] + ipv4_list_chars(addrs.drop_first())
    }
}

/// A single decimal digit as a one-character string slice.
fn digit_str(d: u8) -> (r: &'static str)
    requires
        d < 10,
    ensures
        r@ == seq![dec_digit(d as int)],
{
    if d == 0 {
        proof {
            reveal_strlit("0");
            assert("0"@ =~= seq![dec_digit(0int)]);
        }
        "0"
    } else if d == 1 {
        proof {
            reveal_strlit("1");
            assert("1"@ =~= seq![dec_digit(1int)]);
        }
        "1"
    } else if d == 2 {
        proof {
            reveal_strlit("2");
            assert("2"@ =~= seq![dec_digit(2int)]);
        }
        "2"
    } else if d == 3 {
        proof {
            reveal_strlit("3");
            assert("3"@ =~= seq![dec_digit(3int)]);
        }
        "3"
    } else if d == 4 {
        proof {
            reveal_strlit("4");
            assert("4"@ =~= seq![dec_digit(4int)]);
        }
        "4"
    } else if d == 5 {
        proof {
            reveal_strlit("5");
            assert("5"@ =~= seq![dec_digit(5int)]);
        }
        "5"
    } else if d == 6 {
        proof {
            reveal_strlit("6");
            assert("6"@ =~= seq![dec_digit(6int)]);
        }
        "6"
    } else if d == 7 {
        proof {
            reveal_strlit("7");
            assert("7"@ =~= seq![dec_digit(7int)]);
        }
        "7"
    } else if d == 8 {
        proof {
            reveal_strlit("8");
            assert("8"@ =~= seq![dec_digit(8int)]);
        }
        "8"
    } else {
        proof {
            reveal_strlit("9");
            assert("9"@ =~= seq![dec_digit(9int)]);
        }
        "9"
    }
}

/// Append the decimal text of `n` to `s`.
fn push_decimal(s: &mut String, n: u8)
    ensures
        final(s)@ == old(s)@ + dec_chars(n as int),
{
    proof {
        reveal_with_fuel(dec_chars, 4);
    }
    if n >= 100 {
        let d0 = n / 100;
        let d1 = (n / 10) % 10;
        let d2 = n % 10;
        proof {
            assert((n as int / 10) / 10 == n as int / 100) by (nonlinear_arith);
            assert(dec_chars(n as int) =~= seq![
                dec_digit(d0 as int),
                dec_digit(d1 as int),
                dec_digit(d2 as int),
            ]);
        }
        s.append(digit_str(d0));
        s.append(digit_str(d1));
        s.append(digit_str(d2));
        proof {
            assert(final(s)@ =~= old(s)@ + dec_chars(n as int));
        }
    } else if n >= 10 {
        let d0 = n / 10;
        let d1 = n % 10;
        proof {
            assert(dec_chars(n as int) =~= seq![dec_digit(d0 as int), dec_digit(d1 as int)]);
        }
        s.append(digit_str(d0));
        s.append(digit_str(d1));
        proof {
            assert(final(s)@ =~= old(s)@ + dec_chars(n as int));
        }
    } else {
        s.append(digit_str(n));
        proof {
            assert(final(s)@ =~= old(s)@ + dec_chars(n as int));
        }
    }
}

/// Append the dotted-quad text of `ip` to `s`.
fn push_ipv4(s: &mut String, ip: Ipv4)
    ensures
        final(s)@ == old(s)@ + ipv4_chars(ip),
{
    push_decimal(s, ip.octets[0]);
    s.append(".");
    push_decimal(s, ip.octets[1]);
    s.append(".");
    push_decimal(s, ip.octets[2]);
    s.append(".");
    push_decimal(s, ip.octets[3]);
    proof {
        reveal_strlit(".");
        assert("."@ =~= seq!['.']);
        assert(final(s)@ =~= old(s)@ + ipv4_chars(ip));
    }
}

/// Appending one more address to a joined list appends a comma and its
/// text, provided the list was non-empty.
proof fn lemma_list_chars_push(addrs: Seq<Ipv4>, ip: Ipv4)
    ensures
        addrs.len() == 0 ==> ipv4_list_chars(addrs.push(ip)) == ipv4_chars(ip),
        addrs.len() > 0 ==> ipv4_list_chars(addrs.push(ip)) == ipv4_list_chars(addrs) + seq![',']
            + ipv4_chars(ip),
    decreases addrs.len(),
{
    let whole = addrs.push(ip);
    if addrs.len() == 0 {
        assert(whole.len() == 1);
        assert(whole[0] == ip);
    } else if addrs.len() == 1 {
        assert(whole.len() == 2);
        assert(whole[0] == addrs[0]);
        assert(whole.drop_first() =~= seq![ip]);
        assert(ipv4_list_chars(seq![ip]) == ipv4_chars(ip));
        assert(ipv4_list_chars(whole) =~= ipv4_list_chars(addrs) + seq![','] + ipv4_chars(ip));
    } else {
        assert(whole.drop_first() =~= addrs.drop_first().push(ip));
        lemma_list_chars_push(addrs.drop_first(), ip);
        assert(whole[0] == addrs[0]);
        assert(ipv4_list_chars(whole) =~= ipv4_list_chars(addrs) + seq![','] + ipv4_chars(ip));
    }
}

/// The comma-joined text of the addresses, in the order given.
pub fn ipv4_list_string(addrs: &Vec<Ipv4>) -> (r: String)
    ensures
        r@ == ipv4_list_chars(addrs@),
{
    let mut s = String::new();
    let mut i: usize = 0;
    while i < addrs.len()
        invariant
            i <= addrs@.len(),
            s@ == ipv4_list_chars(addrs@.take(i as int)),
        decreases addrs@.len() - i,
    {
        if i > 0 {
            s.append(",");
            proof {
                reveal_strlit(",");
                assert(","@ =~= seq![',']);
            }
        }
        let ip = addrs[i];
        push_ipv4(&mut s, ip);
        proof {
            assert(addrs@.take(i as int + 1) =~= addrs@.take(i as int).push(addrs@[i as int]));
            lemma_list_chars_push(addrs@.take(i as int), ip);
            assert(s@ =~= ipv4_list_chars(addrs@.take(i as int + 1)));
        }
        i += 1;
    }
    proof {
        assert(addrs@.take(addrs@.len() as int) =~= addrs@);
    }
    s
}

/// The decimal text of a number is never empty.
pub proof fn lemma_dec_chars_nonempty(n: int)
    ensures
        dec_chars(n).len() >= 1,
    decreases n,
{
    if n >= 10 {
        lemma_dec_chars_nonempty(n / 10);
    }
}

/// A non-empty address list joins to a non-empty string.
pub proof fn lemma_resolved_text_nonempty(addrs: Seq<Ipv4>)
    requires
        addrs.len() > 0,
    ensures
        ipv4_list_chars(addrs).len() > 0,
{
    lemma_dec_chars_nonempty(addrs[0].octets[0] as int);
}

/// Turn a raw lookup outcome into its classification: answers become
/// `Resolved` with the comma-joined address text in answer order, an
/// affirmative empty answer becomes `Unresolved` and never an error,
/// and every other failure is surfaced as `Error` with its cause.
pub fn classify_lookup(outcome: LookupOutcome) -> (r: Resolution)
    ensures
        outcome matches LookupOutcome::Records { addrs } ==> r matches Resolution::Resolved {
            addresses,
        } && addresses@ == ipv4_list_chars(addrs@),
        outcome is NoRecords ==> r is Unresolved,
        outcome matches LookupOutcome::Failure { message } ==> r matches Resolution::Error { cause }
            && cause@ == message@,
{
    match outcome {
        LookupOutcome::Records { addrs } => {
            let addresses = ipv4_list_string(&addrs);
            Resolution::Resolved { addresses }
        },
        LookupOutcome::NoRecords => Resolution::Unresolved,
        LookupOutcome::Failure { message } => Resolution::Error { cause: message },
    }
}

/// The timeout and interval, in milliseconds, governing one bounded
/// retry loop. The two are independent: the interval need not divide
/// the timeout.
#[derive(Clone, Copy, Debug)]
pub struct PollBudget {
    pub timeout: u64,
    pub interval: u64,
}

/// What a bounded poll ended with.
pub enum PollResult {
    /// A probe answered with addresses; `addresses` is the comma-joined
    /// list in answer order.
    Found { addresses: String },
    /// The budget ran out with every probe affirming no records.
    NoResult,
    /// A probe failed; no further probes were made.
    Failed { cause: String },
}

/// Spec-level description of how a bounded poll ends: `attempts` counts
/// the probes made, and each probe happens one full interval after the
/// previous one (the first, one interval after the start).
pub enum PollVerdict {
    FoundAt { attempts: int, addrs: Vec<Ipv4> },
    FailedAt { attempts: int, cause: String },
    GaveUp { attempts: int },
}

/// The bounded poll over a script of probe outcomes: before each probe
/// the accumulated elapsed time (`done` intervals so far) is held
/// against the timeout; at or past it the poll gives up. Otherwise one
/// interval passes, the next probe runs, and only an affirmative
/// "no records" outcome continues the loop.
pub open spec fn poll_model(
    timeout: int,
    interval: int,
    probes: Seq<LookupOutcome>,
    done: int,
) -> PollVerdict
    decreases probes.len(),
{
    if done * interval >= timeout {
        PollVerdict::GaveUp { attempts: done }
    } else if probes.len() == 0 {
        PollVerdict::GaveUp { attempts: done }
    } else {
        match probes[0] {
            LookupOutcome::NoRecords => poll_model(
                timeout,
                interval,
                probes.drop_first(),
                done + 1,
            ),
            LookupOutcome::Records { addrs } => PollVerdict::FoundAt {
                attempts: done + 1,
                addrs,
            },
            LookupOutcome::Failure { message } => PollVerdict::FailedAt {
                attempts: done + 1,
                cause: message,
            },
        }
    }
}

/// Run a bounded poll against a script of probe outcomes, one outcome
/// per probe the loop makes, and report the result together with the
/// elapsed time in milliseconds. Success returns immediately at the
/// probe that found records; a probe failure aborts immediately; and
/// the loop gives up at the first check at-or-past the timeout, so the
/// elapsed time never exceeds the timeout by more than one interval.
pub fn poll_run(budget: &PollBudget, probes: &Vec<LookupOutcome>) -> (r: (PollResult, u64))
    requires
        budget.interval >= 1,
        budget.timeout + budget.interval <= u64::MAX,
        probes@.len() * budget.interval >= budget.timeout,
    ensures
        ({
            let verdict = poll_model(budget.timeout as int, budget.interval as int, probes@, 0);
            &&& (verdict matches PollVerdict::FoundAt { attempts, addrs } ==> r.0
                matches PollResult::Found { addresses } && addresses@ == ipv4_list_chars(addrs@)
                && r.1 == attempts * budget.interval)
            &&& (verdict matches PollVerdict::FailedAt { attempts, cause } ==> r.0
                matches PollResult::Failed { cause: c } && c@ == cause@ && r.1 == attempts
                * budget.interval)
            &&& (verdict matches PollVerdict::GaveUp { attempts } ==> r.0 is NoResult && r.1
                == attempts * budget.interval)
        }),
        r.0 is NoResult ==> r.1 >= budget.timeout,
        r.1 <= budget.timeout + budget.interval,
{
    let ghost t = budget.timeout as int;
    let ghost iv = budget.interval as int;
    let n = probes.len();
    let mut i: usize = 0;
    let mut elapsed: u64 = 0;
    proof {
        assert(probes@.skip(0) =~= probes@);
    }
    loop
        invariant
            budget.interval >= 1,
            budget.timeout + budget.interval <= u64::MAX,
            probes@.len() * budget.interval >= budget.timeout,
            t == budget.timeout as int,
            iv == budget.interval as int,
            n == probes@.len(),
            i <= n,
            elapsed as int == i as int * iv,
            elapsed <= budget.timeout + budget.interval,
            (probes@.len() - i as int) * iv >= t - elapsed as int,
            poll_model(t, iv, probes@, 0) == poll_model(t, iv, probes@.skip(i as int), i as int),
        decreases probes@.len() - i,
    {
        if elapsed >= budget.timeout {
            return (PollResult::NoResult, elapsed);
        }
        proof {
            if probes@.len() == i {
                assert((probes@.len() - i as int) * iv == 0);
                assert(false);
            }
            assert(probes@.skip(i as int).len() > 0);
            assert(probes@.skip(i as int)[0] == probes@[i as int]);
            assert(probes@.skip(i as int).drop_first() =~= probes@.skip(i as int + 1));
        }
        elapsed = elapsed + budget.interval;
        let outcome = &probes[i];
        proof {
            assert((i as int + 1) * iv == i as int * iv + iv) by (nonlinear_arith);
            assert((probes@.len() - (i as int + 1)) * iv == (probes@.len() - i as int) * iv - iv)
                by (nonlinear_arith);
        }
        match outcome {
            LookupOutcome::NoRecords => {
                i += 1;
            },
            LookupOutcome::Records { addrs } => {
                let addresses = ipv4_list_string(addrs);
                return (PollResult::Found { addresses }, elapsed);
            },
            LookupOutcome::Failure { message } => {
                return (PollResult::Failed { cause: message.clone() }, elapsed);
            },
        }
    }
}

/// The decision at the top of each poll turn: keep going only while the
/// accumulated elapsed time is still short of the timeout. A caller
/// running the loop live asks this before each wait-then-probe turn.
pub fn poll_decide(budget: &PollBudget, elapsed: u64) -> (keep_going: bool)
    ensures
        keep_going == (elapsed < budget.timeout),
{
    elapsed < budget.timeout
}

/// What one probe outcome settles: records end the poll with the joined
/// address text, a failure ends it with its cause, and only an
/// affirmative "no records" answer continues the loop.
pub fn poll_settle(outcome: LookupOutcome) -> (r: Option<PollResult>)
    ensures
        outcome matches LookupOutcome::Records { addrs } ==> r matches Some(p) && (p
            matches PollResult::Found { addresses } && addresses@ == ipv4_list_chars(addrs@)),
        outcome is NoRecords ==> r is None,
        outcome matches LookupOutcome::Failure { message } ==> r matches Some(p) && (p
            matches PollResult::Failed { cause } && cause@ == message@),
{
    match outcome {
        LookupOutcome::Records { addrs } => {
            let addresses = ipv4_list_string(&addrs);
            Some(PollResult::Found { addresses })
        },
        LookupOutcome::NoRecords => None,
        LookupOutcome::Failure { message } => Some(PollResult::Failed { cause: message }),
    }
}

/// With a zero timeout the poll gives up at once: no probe is made, no
/// time passes, and it cannot succeed.
pub proof fn lemma_poll_zero_timeout(interval: int, probes: Seq<LookupOutcome>)
    requires
        interval >= 1,
    ensures
        poll_model(0, interval, probes, 0) == (PollVerdict::GaveUp { attempts: 0 }),
{
}

/// A poll can only end in success if some probe in the script actually
/// answered with records.
pub proof fn lemma_poll_success_needs_record(
    timeout: int,
    interval: int,
    probes: Seq<LookupOutcome>,
    done: int,
)
    ensures
        poll_model(timeout, interval, probes, done) matches PollVerdict::FoundAt { attempts, addrs }
            ==> exists|j: int|
            0 <= j < probes.len() && probes[j] == (LookupOutcome::Records { addrs }),
    decreases probes.len(),
{
    match poll_model(timeout, interval, probes, done) {
        PollVerdict::FoundAt { attempts, addrs } => {
            if !(done * interval >= timeout) && probes.len() > 0 && probes[0] is NoRecords {
                lemma_poll_success_needs_record(timeout, interval, probes.drop_first(), done + 1);
                let j = choose|j: int|
                    0 <= j < probes.drop_first().len() && probes.drop_first()[j] == (
                    LookupOutcome::Records { addrs });
                assert(probes[j + 1] == (LookupOutcome::Records { addrs }));
            } else {
                assert(probes[0] == (LookupOutcome::Records { addrs }));
            }
        },
        _ => {},
    }
}

/// If the first `n` probes affirm no records, the next one answers with
/// records, and its turn still falls inside the budget, the poll
/// succeeds exactly at that probe: `n + 1` attempts, one interval each,
/// with no further waiting.
pub proof fn lemma_poll_found_time(
    timeout: int,
    interval: int,
    probes: Seq<LookupOutcome>,
    n: int,
    done: int,
)
    requires
        interval >= 1,
        done >= 0,
        0 <= n < probes.len(),
        forall|j: int| 0 <= j < n ==> probes[j] is NoRecords,
        probes[n] matches LookupOutcome::Records { .. },
        (done + n) * interval < timeout,
    ensures
        poll_model(timeout, interval, probes, done) matches PollVerdict::FoundAt {
            attempts,
            addrs,
        } && attempts == done + n + 1 && probes[n] == (LookupOutcome::Records { addrs }),
    decreases n,
{
    assert(done * interval <= (done + n) * interval) by (nonlinear_arith)
        requires
            interval >= 1,
            n >= 0,
    ;
    if n == 0 {
    } else {
        assert(probes[0] is NoRecords);
        assert(forall|j: int| 0 <= j < n - 1 ==> probes.drop_first()[j] is NoRecords);
        assert(probes.drop_first()[n - 1] == probes[n]);
        lemma_poll_found_time(timeout, interval, probes.drop_first(), n - 1, done + 1);
    }
}

} // verus!
