use vstd::prelude::*;
use vstd::string::StringExecFns;

verus! {

/// The character for one decimal digit.
pub open spec fn digit_char(d: nat) -> char {
    if d == 0 {
        '0'
    } else if d == 1 {
        '1'
    } else if d == 2 {
        '2'
    } else if d == 3 {
        '3'
    } else if d == 4 {
        '4'
    } else if d == 5 {
        '5'
    } else if d == 6 {
        '6'
    } else if d == 7 {
        '7'
    } else if d == 8 {
        '8'
    } else {
        '9'
    }
}

/// The decimal digits of a natural number, most significant first.
pub open spec fn spec_digits(n: nat) -> Seq<char>
    decreases n,
{
    if n < 10 {
        seq![digit_char(n)]
    } else {
        spec_digits(n / 10).push(digit_char(n % 10))
    }
}

/// The decimal rendering of an integer, with a leading minus sign when
/// negative.
pub open spec fn spec_decimal(n: int) -> Seq<char> {
    if n < 0 {
        seq!['-'] + spec_digits((-n) as nat)
    } else {
        spec_digits(n as nat)
    }
}

fn append_digit(s: &mut String, d: u64)
    requires
        d < 10,
    ensures
        final(s)@ == old(s)@ + seq![digit_char(d as nat)],
{
    proof {
        reveal_strlit("0");
        reveal_strlit("1");
        reveal_strlit("2");
        reveal_strlit("3");
        reveal_strlit("4");
        reveal_strlit("5");
        reveal_strlit("6");
        reveal_strlit("7");
        reveal_strlit("8");
        reveal_strlit("9");
    }
    if d == 0 {
        s.append("0");
    } else if d == 1 {
        s.append("1");
    } else if d == 2 {
        s.append("2");
    } else if d == 3 {
        s.append("3");
    } else if d == 4 {
        s.append("4");
    } else if d == 5 {
        s.append("5");
    } else if d == 6 {
        s.append("6");
    } else if d == 7 {
        s.append("7");
    } else if d == 8 {
        s.append("8");
    } else {
        s.append("9");
    }
    proof {
        assert(s@ =~= old(s)@ + seq![digit_char(d as nat)]);
    }
}

fn append_u64(s: &mut String, n: u64)
    ensures
        final(s)@ == old(s)@ + spec_digits(n as nat),
    decreases n,
{
    if n >= 10 {
        append_u64(s, n / 10);
    }
    append_digit(s, n % 10);
    proof {
        assert(s@ =~= old(s)@ + spec_digits(n as nat));
    }
}

/// Renders an integer in decimal.
pub fn decimal_string(n: i64) -> (r: String)
    ensures
        r@ == spec_decimal(n as int),
{
    let mut s = String::new();
    if n < 0 {
        proof {
            reveal_strlit("-");
        }
        s.append("-");
        proof {
            assert(s@ =~= seq!['-']);
        }
        let mag: u64 = ((-(n + 1)) as u64) + 1;
        assert(mag == -(n as int));
        append_u64(&mut s, mag);
    } else {
        append_u64(&mut s, n as u64);
        proof {
            assert(s@ =~= Seq::<char>::empty() + spec_digits(n as nat));
        }
    }
    s
}

/// The transient output location for one artifact, namespaced by job
/// identifier, tier label, and a creation timestamp, so that repeated
/// submissions under the same job identifier do not collide.
pub open spec fn output_path_view(job_id: Seq<char>, tier: Seq<char>, ts: int) -> Seq<char> {
    "/tmp/"@ + job_id + "_"@ + tier + "_"@ + spec_decimal(ts) + ".mp4"@
}

/// Builds the output location for one (job, tier) pair at one timestamp.
pub fn output_path_for(job_id: &str, tier: &str, timestamp: i64) -> (r: String)
    ensures
        r@ == output_path_view(job_id@, tier@, timestamp as int),
{
    let mut s = String::from_str("/tmp/");
    s.append(job_id);
    s.append("_");
    s.append(tier);
    s.append("_");
    let ts = decimal_string(timestamp);
    s.append(ts.as_str());
    s.append(".mp4");
    proof {
        assert(s@ =~= output_path_view(job_id@, tier@, timestamp as int));
    }
    s
}

/// Relies on chrono::Utc::now and chrono::DateTime::timestamp: the wall
/// clock's reading as whole seconds since the Unix epoch. Nothing can be
/// promised of a clock reading.
#[verifier::external_body]
fn unix_timestamp_now() -> i64 {
    chrono::Utc::now().timestamp()
}

/// The output location for one (job, tier) pair, stamped with the wall clock
/// at the call: always of the namespaced shape, whatever the clock read.
pub fn fresh_output_path(job_id: &str, tier: &str) -> (r: String)
    ensures
        exists|ts: int| r@ == output_path_view(job_id@, tier@, ts),
{
    let ts = unix_timestamp_now();
    let r = output_path_for(job_id, tier, ts);
    proof {
        assert(r@ == output_path_view(job_id@, tier@, ts as int));
    }
    r
}

} // verus!
