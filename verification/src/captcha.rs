//! The text side of click captchas: which characters are shown, which
//! of them the user must click and in what order, and the pseudo-random
//! numbers that place, turn and colour the characters.

use vstd::prelude::*;
use vstd::wrapping::u64_specs;

verus! {

/// Multiplier of the linear congruential generator.
pub const LCG_A: u64 = 1664525;

/// Increment of the linear congruential generator.
pub const LCG_C: u64 = 1013904223;

/// One step of the generator: `(a * x + c) mod m`, the product and sum
/// taken modulo 2^64 first.
pub open spec fn lcg_next(x: u64, m: u64) -> u64 {
    (u64_specs::wrapping_add(u64_specs::wrapping_mul(LCG_A, x), LCG_C) % m) as u64
}

/// The first `n` numbers the generator yields from `seed`.
pub open spec fn lcg_seq(seed: u64, m: u64, n: nat) -> Seq<u64>
    decreases n,
{
    if n == 0 {
        Seq::empty()
    } else {
        let prev = lcg_seq(seed, m, (n - 1) as nat);
        let x = if n == 1 { seed } else { prev.last() };
        prev.push(lcg_next(x, m))
    }
}

/// The first `count` numbers of the generator seeded with `seed`, each
/// below `m`.
pub fn lcg_values(seed: u64, count: usize, m: u64) -> (res: Vec<u64>)
    requires
        m > 0 || count == 0,
    ensures
        res@ == lcg_seq(seed, m, count as nat),
        forall|i: int| 0 <= i < res@.len() ==> #[trigger] res@[i] < m,
{
    let mut numbers: Vec<u64> = Vec::new();
    let mut x = seed;
    let mut i: usize = 0;
    while i < count
        invariant
            i <= count,
            m > 0 || count == 0,
            numbers@ == lcg_seq(seed, m, i as nat),
            x == if i == 0 { seed } else { numbers@.last() },
            forall|j: int| 0 <= j < numbers@.len() ==> #[trigger] numbers@[j] < m,
        decreases count - i,
    {
        x = LCG_A.wrapping_mul(x).wrapping_add(LCG_C) % m;
        numbers.push(x);
        i = i + 1;
    }
    numbers
}

/// The first `count` numbers of the generator seeded with `seed`, each
/// below `m`, cut to their low byte (as an `as u8` cast does).
pub fn lcg_u8(seed: u64, count: usize, m: u64) -> (res: Vec<u8>)
    requires
        m > 0 || count == 0,
    ensures
        res@.len() == count,
        forall|i: int| 0 <= i < count ==> #[trigger] lcg_seq(seed, m, count as nat)[i] < m,
        forall|i: int| 0 <= i < count ==> #[trigger] res@[i] == lcg_seq(seed, m, count as nat)[i] % 256,
{
    let values = lcg_values(seed, count, m);
    proof { lemma_lcg_seq_len(seed, m, count as nat); }
    let mut out: Vec<u8> = Vec::new();
    let mut i: usize = 0;
    while i < count
        invariant
            i <= count,
            values@ == lcg_seq(seed, m, count as nat),
            values@.len() == count,
            out@.len() == i,
            forall|j: int| 0 <= j < i ==> #[trigger] out@[j] == values@[j] % 256,
        decreases count - i,
    {
        out.push((values[i] % 256) as u8);
        i = i + 1;
    }
    out
}

proof fn lemma_lcg_seq_len(seed: u64, m: u64, n: nat)
    ensures
        lcg_seq(seed, m, n).len() == n,
    decreases n,
{
    if n > 0 {
        lemma_lcg_seq_len(seed, m, (n - 1) as nat);
    }
}

/// The colours of `count` characters drawn from generator seed `seed`:
/// `3 * count` bytes are drawn, and character `i` is coloured with the
/// three bytes from position `i` on.
pub fn char_colors(seed: u64, count: usize) -> (res: Vec<(u8, u8, u8)>)
    requires
        count * 3 <= usize::MAX,
    ensures
        res@.len() == count,
        forall|i: int|
            0 <= i < count ==> #[trigger] res@[i] == ((lcg_seq(seed, 256, 3 * count as nat)[i] % 256) as u8, (
            lcg_seq(seed, 256, 3 * count as nat)[i + 1] % 256) as u8, (lcg_seq(seed, 256, 3 * count as nat)[i
                + 2] % 256) as u8),
{
    let n = count * 3;
    let bytes = lcg_u8(seed, n, 256);
    let mut out: Vec<(u8, u8, u8)> = Vec::new();
    let mut i: usize = 0;
    while i < count
        invariant
            i <= count,
            n == 3 * count,
            bytes@.len() == n,
            forall|j: int| 0 <= j < n ==> #[trigger] bytes@[j] == lcg_seq(seed, 256, n as nat)[j] % 256,
            out@.len() == i,
            forall|j: int|
                0 <= j < i ==> #[trigger] out@[j] == ((lcg_seq(seed, 256, n as nat)[j] % 256) as u8, (lcg_seq(
                    seed,
                    256,
                    n as nat,
                )[j + 1] % 256) as u8, (lcg_seq(seed, 256, n as nat)[j + 2] % 256) as u8),
        decreases count - i,
    {
        assert(bytes@[i as int] == lcg_seq(seed, 256, n as nat)[i as int] % 256);
        assert(bytes@[i + 1] == lcg_seq(seed, 256, n as nat)[i + 1] % 256);
        assert(bytes@[i + 2] == lcg_seq(seed, 256, n as nat)[i + 2] % 256);
        out.push((bytes[i], bytes[i + 1], bytes[i + 2]));
        i = i + 1;
    }
    out
}

/// Why a captcha could not be built.
#[derive(Clone, Copy, Debug, PartialEq, Eq, Structural)]
pub enum CaptchaError {
    /// More characters to select than are shown, or a selection past them.
    InvalidTxtNums,
    /// The characters do not fit in their boxes.
    InvalidTxtSize,
}

/// The characters shown by a click captcha and the positions, in
/// click order, of those the user must select.
pub struct CaptchaText {
    pub total_chars: Vec<char>,
    pub sel_chars: Vec<usize>,
}

impl CaptchaText {
    /// No characters, nothing to select.
    pub fn new() -> (res: CaptchaText)
        ensures
            res.total_chars@.len() == 0,
            res.sel_chars@.len() == 0,
    {
        CaptchaText { total_chars: Vec::new(), sel_chars: Vec::new() }
    }

    /// Shows the characters of `chars` after those already shown.
    pub fn set_total_chars(self, chars: &str) -> (res: CaptchaText)
        ensures
            res.total_chars@ == self.total_chars@ + chars@,
            res.sel_chars@ == self.sel_chars@,
    {
        let mut this = self;
        let ghost start = this.total_chars@;
        let len = chars.unicode_len();
        let mut k: usize = 0;
        while k < len
            invariant
                k <= len,
                len == chars@.len(),
                this.total_chars@ == start + chars@.take(k as int),
                this.sel_chars@ == self.sel_chars@,
            decreases len - k,
        {
            this.total_chars.push(chars.get_char(k));
            k = k + 1;
            assert(this.total_chars@ =~= start + chars@.take(k as int));
        }
        assert(chars@.take(k as int) =~= chars@);
        this
    }

    /// Asks the user to click the shown characters at `sel`, in order.
    /// Refused when more are asked for than are shown, or a position is
    /// past the shown characters (the position just past the last one
    /// is let through).
    pub fn set_sel_chars(self, sel: &[usize]) -> (res: Result<CaptchaText, CaptchaError>)
        ensures
            match res {
                Ok(t) => t.sel_chars@ == self.sel_chars@ + sel@ && t.total_chars@ == self.total_chars@,
                Err(e) => e == CaptchaError::InvalidTxtNums && (sel@.len() > self.total_chars@.len()
                    || exists|i: int| 0 <= i < sel@.len() && #[trigger] sel@[i] > self.total_chars@.len()),
            },
            res is Err <==> (sel@.len() > self.total_chars@.len()
                || exists|i: int| 0 <= i < sel@.len() && #[trigger] sel@[i] > self.total_chars@.len()),
    {
        if sel.len() > self.total_chars.len() {
            return Err(CaptchaError::InvalidTxtNums);
        }
        let mut this = self;
        let total = this.total_chars.len();
        let mut k: usize = 0;
        while k < sel.len()
            invariant
                k <= sel@.len(),
                total == self.total_chars@.len(),
                this.total_chars@ == self.total_chars@,
                this.sel_chars@ == self.sel_chars@ + sel@.take(k as int),
                forall|i: int| 0 <= i < k ==> #[trigger] sel@[i] <= total,
            decreases sel@.len() - k,
        {
            let s = sel[k];
            if s > total {
                return Err(CaptchaError::InvalidTxtNums);
            }
            this.sel_chars.push(s);
            k = k + 1;
            assert(this.sel_chars@ =~= self.sel_chars@ + sel@.take(k as int));
        }
        assert(sel@.take(k as int) =~= sel@);
        Ok(this)
    }

    /// For each selected position, in click order, the bounds drawn for
    /// that character and the character itself.
    pub fn selected<T: Copy>(&self, bounds: &Vec<T>) -> (res: (Vec<T>, Vec<char>))
        requires
            bounds@.len() == self.total_chars@.len(),
            forall|i: int| 0 <= i < self.sel_chars@.len() ==> #[trigger] self.sel_chars@[i] < self.total_chars@.len(),
        ensures
            res.0@.len() == self.sel_chars@.len(),
            res.1@.len() == self.sel_chars@.len(),
            forall|i: int|
                0 <= i < self.sel_chars@.len() ==> #[trigger] res.0@[i] == bounds@[self.sel_chars@[i] as int]
                    && res.1@[i] == self.total_chars@[self.sel_chars@[i] as int],
    {
        let mut sel_bounds: Vec<T> = Vec::new();
        let mut sel_chars: Vec<char> = Vec::new();
        let mut k: usize = 0;
        while k < self.sel_chars.len()
            invariant
                k <= self.sel_chars@.len(),
                bounds@.len() == self.total_chars@.len(),
                forall|i: int| 0 <= i < self.sel_chars@.len() ==> #[trigger] self.sel_chars@[i] < self.total_chars@.len(),
                sel_bounds@.len() == k,
                sel_chars@.len() == k,
                forall|i: int|
                    0 <= i < k ==> #[trigger] sel_bounds@[i] == bounds@[self.sel_chars@[i] as int]
                        && sel_chars@[i] == self.total_chars@[self.sel_chars@[i] as int],
            decreases self.sel_chars@.len() - k,
        {
            let s = self.sel_chars[k];
            let ghost prev_bounds = sel_bounds@;
            let ghost prev_chars = sel_chars@;
            sel_bounds.push(bounds[s]);
            sel_chars.push(self.total_chars[s]);
            assert forall|i: int| 0 <= i < k + 1 implies #[trigger] sel_bounds@[i] == bounds@[self.sel_chars@[i] as int]
                && sel_chars@[i] == self.total_chars@[self.sel_chars@[i] as int] by {
                if i < k {
                    assert(sel_bounds@[i] == prev_bounds[i]);
                    assert(sel_chars@[i] == prev_chars[i]);
                }
            }
            k = k + 1;
        }
        (sel_bounds, sel_chars)
    }
}

} // verus!
