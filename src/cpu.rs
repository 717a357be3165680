use vstd::prelude::*;

verus! {

/// The system-wide tick counters of the aggregate CPU line. Counters that
/// older kernels do not report are `None`.
#[derive(Clone, Copy, Debug, PartialEq, Eq, Structural)]
pub struct CpuTimes {
    pub user: u64,
    pub nice: u64,
    pub system: u64,
    pub idle: u64,
    pub iowait: Option<u64>,
    pub irq: Option<u64>,
    pub softirq: Option<u64>,
    pub steal: Option<u64>,
    pub guest: Option<u64>,
    pub guest_nice: Option<u64>,
}

/// A counter that is not reported counts as zero.
pub open spec fn or_zero(c: Option<u64>) -> nat {
    match c {
        Some(v) => v as nat,
        None => 0,
    }
}

/// Guest time is already part of user time, and guest-nice time part of nice
/// time: the counters are consistent when neither exceeds its container.
pub open spec fn consistent(t: CpuTimes) -> bool {
    or_zero(t.guest) <= t.user && or_zero(t.guest_nice) <= t.nice
}

/// All ticks the machine has spent: user and nice time with guest time taken
/// out, system, irq and softirq time, idle and iowait time, guest time
/// counted once, and steal time.
pub open spec fn aggregate(t: CpuTimes) -> int {
    (t.user - or_zero(t.guest)) + (t.nice - or_zero(t.guest_nice)) + (t.system + or_zero(t.irq)
        + or_zero(t.softirq)) + (t.idle + or_zero(t.iowait)) + (or_zero(t.guest) + or_zero(
        t.guest_nice)) + or_zero(t.steal)
}

fn value_or_zero(c: Option<u64>) -> (r: u64)
    ensures
        r == or_zero(c),
{
    match c {
        Some(v) => v,
        None => 0,
    }
}

/// Total ticks of the machine, or `None` when the counters are inconsistent
/// or their total does not fit in a `u64`.
pub fn total_cpu_time(t: &CpuTimes) -> (r: Option<u64>)
    ensures
        r matches Some(v) <==> consistent(*t) && aggregate(*t) <= u64::MAX,
        r matches Some(v) ==> v == aggregate(*t),
{
    let guest = value_or_zero(t.guest);
    let guest_nice = value_or_zero(t.guest_nice);
    if guest > t.user || guest_nice > t.nice {
        return None;
    }
    let parts: [u64; 10] = [
        t.user - guest,
        t.nice - guest_nice,
        t.system,
        value_or_zero(t.irq),
        value_or_zero(t.softirq),
        t.idle,
        value_or_zero(t.iowait),
        guest,
        guest_nice,
        value_or_zero(t.steal),
    ];
    let mut sum: u128 = 0;
    let mut i: usize = 0;
    while i < 10
        invariant
            i <= 10,
            sum == sum_prefix(parts@, i as int),
            sum <= i * u64::MAX,
        decreases 10 - i,
    {
        sum = sum + parts[i] as u128;
        i = i + 1;
    }
    assert(sum == aggregate(*t)) by {
        reveal_with_fuel(sum_prefix, 11);
    }
    if sum > u64::MAX as u128 {
        None
    } else {
        Some(sum as u64)
    }
}

/// Sum of the first `n` entries.
pub open spec fn sum_prefix(s: Seq<u64>, n: int) -> int
    decreases n,
{
    if n <= 0 {
        0
    } else {
        sum_prefix(s, n - 1) + s[n - 1]
    }
}

/// Ticks a process has run: user time plus system time, or `None` when the
/// sum does not fit in a `u64`.
pub fn process_ticks(utime: u64, stime: u64) -> (r: Option<u64>)
    ensures
        r matches Some(v) <==> utime + stime <= u64::MAX,
        r matches Some(v) ==> v == utime + stime,
{
    utime.checked_add(stime)
}

/// How far a monotonic counter advanced; a counter that went back counts as
/// not having advanced.
pub open spec fn advance(current: u64, previous: u64) -> nat {
    if current >= previous {
        (current - previous) as nat
    } else {
        0
    }
}

/// Ticks elapsed between two samples of a counter.
pub fn elapsed_ticks(current: u64, previous: u64) -> (r: u64)
    ensures
        r == advance(current, previous),
{
    current.saturating_sub(previous)
}

/// CPU share in tenths of a percent, rounded to the nearest tenth (halves
/// up): `busy` process ticks over a period of `elapsed / cores` ticks, times
/// one hundred. A zero-length period gives zero; nothing clamps the result.
pub open spec fn cpu_tenths(busy: nat, elapsed: nat, cores: nat) -> nat {
    if elapsed == 0 {
        0
    } else {
        (2000 * busy * cores + elapsed) / (2 * elapsed)
    }
}

/// CPU share of a process in tenths of a percent between two samples of its
/// ticks and of the machine's total ticks, on `cores` logical cores.
pub fn cpu_usage(
    process: u64,
    prev_process: u64,
    total: u64,
    prev_total: u64,
    cores: u32,
) -> (r: u128)
    ensures
        r == cpu_tenths(advance(process, prev_process), advance(total, prev_total), cores as nat),
{
    let busy = elapsed_ticks(process, prev_process);
    let elapsed = elapsed_ticks(total, prev_total);
    if elapsed == 0 {
        return 0;
    }
    let b = busy as u128;
    let c = cores as u128;
    assert(b * c <= u64::MAX * u32::MAX) by (nonlinear_arith)
        requires
            b <= u64::MAX,
            c <= u32::MAX,
    ;
    let bc = b * c;
    let num = 2000 * bc + elapsed as u128;
    let den = 2 * elapsed as u128;
    assert(2000 * bc == 2000 * (busy as nat) * (cores as nat)) by (nonlinear_arith)
        requires
            bc == b * c,
            b == busy,
            c == cores,
    ;
    num / den
}

/// The period between two total tick samples is never negative, and where
/// no ticks elapsed the share is zero.
pub proof fn lemma_cpu_period_defined(total: u64, prev_total: u64, busy: nat, cores: nat)
    requires
        total >= prev_total,
        cores >= 1,
    ensures
        advance(total, prev_total) == total - prev_total >= 0,
        advance(total, prev_total) == 0 ==> cpu_tenths(busy, advance(total, prev_total), cores)
            == 0,
{
}

/// Over a positive period the share is `busy / (elapsed / cores) * 100`
/// within half a tenth of a percent, with no upper bound: a process that ran
/// more ticks than elapsed per core reports more than one hundred percent
/// per core.
pub proof fn lemma_cpu_share_nearest(busy: nat, elapsed: nat, cores: nat)
    requires
        elapsed > 0,
    ensures
        2 * elapsed * cpu_tenths(busy, elapsed, cores) <= 2000 * busy * cores + elapsed,
        2000 * busy * cores + elapsed < 2 * elapsed * (cpu_tenths(busy, elapsed, cores) + 1),
        busy * cores >= elapsed ==> cpu_tenths(busy, elapsed, cores) >= 1000,
{
    let n = 2000 * busy * cores + elapsed;
    let d = 2 * elapsed;
    let q = n / d;
    assert(d * q <= n && n < d * (q + 1)) by (nonlinear_arith)
        requires
            d > 0,
            q == n / d,
    ;
    if busy * cores >= elapsed {
        assert(n >= d * 1000) by (nonlinear_arith)
            requires
                busy * cores >= elapsed,
                n == 2000 * busy * cores + elapsed,
                d == 2 * elapsed,
        ;
        assert(q >= 1000) by (nonlinear_arith)
            requires
                d > 0,
                n >= d * 1000,
                q == n / d,
        ;
    }
}

} // verus!
