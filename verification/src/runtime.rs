//! Async runtime configuration: checking the requested cores, naming the
//! worker threads, reading a worker's index back from its name, and
//! choosing the cores the workers are pinned to.

use vstd::prelude::*;
use crate::text::{
    decimal, digit_char, digit_value, is_digit, parse_unsigned, scan_digits, IntErrorKind,
    parse_unsigned_decimal, push_decimal, string_push, string_push_str,
};

verus! {

/// Why the runtime could not be configured.
#[derive(Clone, Copy, Debug, PartialEq, Eq, Structural)]
pub enum RuntimeError {
    /// The core ids of the machine are unknown.
    NoneCoreIds,
    /// A core index is past the known cores.
    OutBoundsCoreIds,
    /// The current thread has no name.
    NoneThreadName,
    /// The thread name holds no `-` before an index.
    NoneThreadIndex,
    /// The index in the thread name is not a number.
    ParseIntError(IntErrorKind),
    /// The requested cores are none, or more than the machine has.
    InvalidCpuNum,
}

/// The number of logical CPUs, as `num_cpus::get` reports it; that
/// crate documents the count as at least one. The count depends on the
/// machine, so nothing more is said of it.
#[verifier::external_body]
fn cpu_count() -> (res: usize)
    ensures
        res >= 1,
{
    num_cpus::get()
}

/// The ids of the cores the process may run on, as
/// `core_affinity::get_core_ids` lists them (each `CoreId` by its `id`
/// field). What is listed depends on the machine; nothing is said of it.
#[verifier::external_body]
fn core_ids() -> (res: Option<Vec<usize>>) {
    core_affinity::get_core_ids().map(|ids| ids.into_iter().map(|c| c.id).collect())
}

/// The outcome of checking a request for `nums` workers starting at
/// core `cpui` on a machine with `limit` cores.
pub open spec fn cpu_check(cpui: nat, nums: nat, limit: nat) -> Result<(), RuntimeError> {
    if cpui + nums > limit {
        Err(RuntimeError::InvalidCpuNum)
    } else if cpui + nums == 0 {
        Err(RuntimeError::InvalidCpuNum)
    } else {
        Ok(())
    }
}

/// Checks a request for `nums` workers from core `cpui` against a
/// machine of `limit` cores.
pub fn check_cpus(cpui: usize, nums: usize, limit: usize) -> (res: Result<(), RuntimeError>)
    requires
        cpui + nums <= usize::MAX,
    ensures
        res == cpu_check(cpui as nat, nums as nat, limit as nat),
{
    let total = cpui + nums;
    if total > limit {
        Err(RuntimeError::InvalidCpuNum)
    } else if total == 0 {
        Err(RuntimeError::InvalidCpuNum)
    } else {
        Ok(())
    }
}

/// The runtime section of the configuration file.
#[derive(Clone, Copy, Debug, PartialEq, Eq, Structural)]
pub struct RuntimeConf {
    cpui: usize,
    nums: usize,
}

/// The runtime options of the command line.
#[derive(Clone, Copy, Debug, PartialEq, Eq, Structural)]
pub struct RuntimeParam {
    /// First core to run on.
    pub cpui: usize,
    /// Number of worker threads.
    pub nums: usize,
}

impl RuntimeConf {
    /// A configuration for `nums` workers from core `cpui`.
    pub fn new(cpui: usize, nums: usize) -> (res: Self)
        ensures
            res.cpui() == cpui,
            res.nums() == nums,
    {
        RuntimeConf { cpui, nums }
    }

    pub closed spec fn cpui(&self) -> usize {
        self.cpui
    }

    pub closed spec fn nums(&self) -> usize {
        self.nums
    }

    /// The first core.
    pub fn get_cpui(&self) -> (res: usize)
        ensures
            res == self.cpui(),
    {
        self.cpui
    }

    /// The number of workers.
    pub fn get_nums(&self) -> (res: usize)
        ensures
            res == self.nums(),
    {
        self.nums
    }

    /// Checks the request against the number of cores of the machine:
    /// it must ask for at least one and stay within the cores there are.
    pub fn check(&self) -> (res: Result<(), RuntimeError>)
        requires
            self.cpui() + self.nums() <= usize::MAX,
        ensures
            res is Ok ==> self.cpui() + self.nums() >= 1,
            self.cpui() + self.nums() == 0 ==> res == Err::<(), RuntimeError>(RuntimeError::InvalidCpuNum),
            exists|limit: nat| limit >= 1 && res == cpu_check(self.cpui() as nat, self.nums() as nat, limit),
    {
        let limit = cpu_count();
        check_cpus(self.cpui, self.nums, limit)
    }

    /// The cores the workers are pinned to (one more than the workers,
    /// for the thread that drives the runtime).
    pub fn cores(&self) -> (res: Vec<usize>)
        requires
            self.nums() < usize::MAX,
        ensures
            res@.len() <= self.nums() + 1,
            exists|ids: Option<Seq<usize>>| res@ == #[trigger] chosen_cores(ids, self.cpui() as nat, (self.nums() + 1) as nat),
    {
        let n = self.nums + 1;
        let res = cpu_cores(self.cpui, n);
        proof {
            let ids = choose|ids: Option<Seq<usize>>| res@ == #[trigger] chosen_cores(ids, self.cpui as nat, n as nat);
            assert(res@ == chosen_cores(ids, self.cpui() as nat, (self.nums() + 1) as nat));
        }
        res
    }
}

impl RuntimeParam {
    /// Checks the request against the number of cores of the machine,
    /// as `RuntimeConf::check` does.
    pub fn check(&self) -> (res: Result<(), RuntimeError>)
        requires
            self.cpui + self.nums <= usize::MAX,
        ensures
            res is Ok ==> self.cpui + self.nums >= 1,
            self.cpui + self.nums == 0 ==> res == Err::<(), RuntimeError>(RuntimeError::InvalidCpuNum),
            exists|limit: nat| limit >= 1 && res == cpu_check(self.cpui as nat, self.nums as nat, limit),
    {
        let limit = cpu_count();
        check_cpus(self.cpui, self.nums, limit)
    }
}

/// The name of the worker thread numbered `id` of a runtime whose
/// threads are named after `prefix`.
pub open spec fn worker_name(prefix: Seq<char>, id: nat) -> Seq<char> {
    prefix + seq!['-'] + decimal(id)
}

/// The position of the last `c` in `s`.
pub open spec fn last_index_of(s: Seq<char>, c: char) -> Option<int>
    decreases s.len(),
{
    if s.len() == 0 {
        None
    } else if s.last() == c {
        Some(s.len() - 1)
    } else {
        last_index_of(s.drop_last(), c)
    }
}

/// The index a worker reads back from its thread name: the number after
/// the last `-`.
pub open spec fn thread_index(name: Option<Seq<char>>) -> Result<nat, RuntimeError> {
    match name {
        None => Err(RuntimeError::NoneThreadName),
        Some(n) => match last_index_of(n, '-') {
            None => Err(RuntimeError::NoneThreadIndex),
            Some(ix) => match parse_unsigned(n.skip(ix + 1), usize::MAX as nat) {
                Ok(v) => Ok(v),
                Err(e) => Err(RuntimeError::ParseIntError(e)),
            },
        },
    }
}

/// The text of an optional name.
pub open spec fn str_view(name: Option<&str>) -> Option<Seq<char>> {
    match name {
        Some(n) => Some(n@),
        None => None,
    }
}

/// The contents of an optional list of ids.
pub open spec fn ids_view(ids: Option<Vec<usize>>) -> Option<Seq<usize>> {
    match ids {
        Some(v) => Some(v@),
        None => None,
    }
}

/// Names worker thread `id` after `prefix`, as `{prefix}-{id}`.
pub fn thread_name(prefix: &str, id: usize) -> (res: String)
    ensures
        res@ == worker_name(prefix@, id as nat),
{
    let mut s = String::new();
    string_push_str(&mut s, prefix);
    string_push(&mut s, '-');
    push_decimal(&mut s, id as u128);
    assert(s@ =~= worker_name(prefix@, id as nat));
    s
}

/// The index of a worker thread, read from its name (`None` when the
/// thread has no name).
pub fn get_thread_index(name: Option<&str>) -> (res: Result<usize, RuntimeError>)
    ensures
        match res {
            Ok(v) => thread_index(str_view(name)) == Ok::<nat, RuntimeError>(v as nat),
            Err(e) => thread_index(str_view(name)) == Err::<nat, RuntimeError>(e),
        },
{
    let name = match name {
        None => {
            return Err(RuntimeError::NoneThreadName);
        },
        Some(n) => n,
    };
    let len = name.unicode_len();
    let mut k: usize = len;
    assert(name@.take(len as int) =~= name@);
    while k > 0
        invariant
            k <= len,
            len == name@.len(),
            last_index_of(name@, '-') == last_index_of(name@.take(k as int), '-'),
        ensures
            k == 0 || name@[k - 1] == '-',
        decreases k,
    {
        let c = name.get_char(k - 1);
        if c == '-' {
            break;
        }
        assert(name@.take(k as int).drop_last() =~= name@.take(k - 1));
        k = k - 1;
    }
    if k == 0 {
        assert(name@.take(0) =~= Seq::<char>::empty());
        return Err(RuntimeError::NoneThreadIndex);
    }
    assert(name@.take(k as int).last() == '-');
    assert(last_index_of(name@, '-') == Some((k - 1) as int));
    let suffix = name.substring_char(k, len);
    assert(suffix@ =~= name@.skip(k as int));
    match parse_unsigned_decimal(suffix, usize::MAX as u64) {
        Ok(v) => Ok(v as usize),
        Err(e) => Err(RuntimeError::ParseIntError(e)),
    }
}

/// The cores chosen from the known core ids: up to `nums` ids from
/// position `start` on, fewer when the ids run out.
pub open spec fn chosen_cores(ids: Option<Seq<usize>>, start: nat, nums: nat) -> Seq<usize> {
    match ids {
        None => Seq::empty(),
        Some(s) => if start >= s.len() {
            Seq::empty()
        } else if start + nums <= s.len() {
            s.subrange(start as int, (start + nums) as int)
        } else {
            s.subrange(start as int, s.len() as int)
        },
    }
}

/// Chooses up to `nums` cores from position `start` of the known ids.
pub fn select_cores(ids: Option<Vec<usize>>, start: usize, nums: usize) -> (res: Vec<usize>)
    ensures
        res@ == chosen_cores(ids_view(ids), start as nat, nums as nat),
{
    let mut cores: Vec<usize> = Vec::new();
    match ids {
        None => {
            assert(cores@ =~= chosen_cores(None, start as nat, nums as nat));
            cores
        },
        Some(ids) => {
            let len = ids.len();
            let end: usize = if start >= len {
                start
            } else if nums <= len - start {
                start + nums
            } else {
                len
            };
            let mut j: usize = start;
            while j < end
                invariant
                    start <= j <= end,
                    end <= len || end == start,
                    len == ids@.len(),
                    j < end ==> end <= len,
                    cores@.len() == j - start,
                    forall|t: int| 0 <= t < j - start ==> cores@[t] == ids@[start + t],
                decreases end - j,
            {
                cores.push(ids[j]);
                j = j + 1;
            }
            proof {
                if start >= len {
                    assert(cores@ =~= Seq::<usize>::empty());
                } else {
                    assert(cores@ =~= ids@.subrange(start as int, end as int));
                }
            }
            cores
        },
    }
}

/// The cores of the machine for `nums` threads from core `start`: up to
/// `nums` of the machine's core ids from position `start` on. Which ids
/// the machine has is not known here.
pub fn cpu_cores(start: usize, nums: usize) -> (res: Vec<usize>)
    ensures
        res@.len() <= nums,
        exists|ids: Option<Seq<usize>>| res@ == #[trigger] chosen_cores(ids, start as nat, nums as nat),
{
    let ids = core_ids();
    let res = select_cores(ids, start, nums);
    proof {
        let v = ids_view(ids);
        if v is Some && (start as nat) < v->0.len() {
            assert(chosen_cores(v, start as nat, nums as nat).len() <= nums);
        }
    }
    res
}

/// The core a worker thread is pinned to: cores are dealt to workers
/// in turn by the index in their name.
pub fn core_for_thread(cores: &Vec<usize>, index: usize) -> (res: usize)
    requires
        cores@.len() > 0,
    ensures
        res == cores@[(index as int) % (cores@.len() as int)],
{
    cores[index % cores.len()]
}

proof fn lemma_digit_char(d: nat)
    requires
        d < 10,
    ensures
        is_digit(digit_char(d)),
        digit_value(digit_char(d)) == d,
        digit_char(d) != '-',
        digit_char(d) != '+',
{
}

/// The decimal notation of `n` is read back as `n`.
pub proof fn lemma_decimal_roundtrip(n: nat, max: nat)
    requires
        n <= max,
    ensures
        scan_digits(decimal(n), max) == Ok::<nat, IntErrorKind>(n),
        decimal(n).len() >= 1,
        forall|j: int| 0 <= j < decimal(n).len() ==> #[trigger] decimal(n)[j] != '-',
        decimal(n)[0] != '+' && decimal(n)[0] != '-',
    decreases n,
{
    lemma_digit_char(n % 10);
    if n < 10 {
        assert(decimal(n).drop_last() =~= Seq::<char>::empty());
        assert(decimal(n).last() == digit_char(n));
        assert(scan_digits(Seq::<char>::empty(), max) == Ok::<nat, IntErrorKind>(0));
    } else {
        lemma_decimal_roundtrip(n / 10, max);
        assert(decimal(n).drop_last() =~= decimal(n / 10));
        assert(decimal(n).last() == digit_char(n % 10));
        assert((n / 10) * 10 + n % 10 == n);
        assert forall|j: int| 0 <= j < decimal(n).len() implies #[trigger] decimal(n)[j] != '-' by {
            if j < decimal(n / 10).len() {
                assert(decimal(n)[j] == decimal(n / 10)[j]);
            }
        }
    }
}

/// A worker reads back the index its thread was named with.
pub proof fn lemma_thread_index_roundtrip(prefix: Seq<char>, id: nat)
    requires
        id <= usize::MAX,
    ensures
        thread_index(Some(worker_name(prefix, id))) == Ok::<nat, RuntimeError>(id),
{
    let name = worker_name(prefix, id);
    let d = decimal(id);
    lemma_decimal_roundtrip(id, usize::MAX as nat);
    assert(name.skip(prefix.len() as int + 1) =~= d);
    lemma_last_dash(prefix, d);
    assert(parse_unsigned(d, usize::MAX as nat) == scan_digits(d, usize::MAX as nat));
}

proof fn lemma_last_dash(prefix: Seq<char>, d: Seq<char>)
    requires
        forall|j: int| 0 <= j < d.len() ==> #[trigger] d[j] != '-',
    ensures
        last_index_of(prefix + seq!['-'] + d, '-') == Some(prefix.len() as int),
    decreases d.len(),
{
    let s = prefix + seq!['-'] + d;
    if d.len() == 0 {
        assert(s.last() == '-');
    } else {
        assert(s.last() == d.last());
        assert(d.last() == d[d.len() - 1]);
        assert(s.drop_last() =~= prefix + seq!['-'] + d.drop_last());
        assert forall|j: int| 0 <= j < d.drop_last().len() implies #[trigger] d.drop_last()[j] != '-' by {
            assert(d.drop_last()[j] == d[j]);
        }
        lemma_last_dash(prefix, d.drop_last());
    }
}

} // verus!
