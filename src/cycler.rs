use vstd::prelude::*;

verus! {

/// The abstract state of an [`InstanceWindowCycler`]: a pool of instances and
/// the half-open window `[start, end)` that is drawn this frame.
pub struct CyclerState {
    pub pool_size: nat,
    pub window_size: nat,
    pub start: nat,
    pub end: nat,
}

impl CyclerState {
    /// The window is non-empty, fits in the pool, and is always exactly
    /// `window_size` wide, starting on a multiple of `window_size`.
    pub open spec fn wf(self) -> bool {
        &&& 0 < self.window_size <= self.pool_size
        &&& self.end == self.start + self.window_size
        &&& self.end <= self.pool_size
        &&& self.start % self.window_size == 0
    }

    /// The state right after construction.
    pub open spec fn initial(pool_size: nat, window_size: nat) -> CyclerState {
        CyclerState { pool_size, window_size, start: 0, end: window_size }
    }

    /// Where `window_start` goes on one step: forward by one window while the
    /// next window still fits, else back to the first window.
    pub open spec fn next_start(self) -> nat {
        if self.start + self.window_size <= self.pool_size - self.window_size {
            self.start + self.window_size
        } else {
            0
        }
    }

    /// Where `window_end` goes on one step: forward by one window while it
    /// stays inside the pool, else back to the end of the first window.
    pub open spec fn next_end(self) -> nat {
        if self.end + self.window_size <= self.pool_size {
            self.end + self.window_size
        } else {
            self.window_size
        }
    }

    /// The state after one `advance`.
    pub open spec fn next(self) -> CyclerState {
        CyclerState {
            pool_size: self.pool_size,
            window_size: self.window_size,
            start: self.next_start(),
            end: self.next_end(),
        }
    }

    /// The state after `n` calls of `advance`.
    pub open spec fn advanced_by(self, n: nat) -> CyclerState
        decreases n,
    {
        if n == 0 {
            self
        } else {
            self.advanced_by((n - 1) as nat).next()
        }
    }

    /// The number of whole windows that fit in the pool: the period of the sweep.
    pub open spec fn layer_count(self) -> nat {
        self.pool_size / self.window_size
    }

    /// The index of the current window among the `layer_count()` windows.
    pub open spec fn layer(self) -> nat {
        self.start / self.window_size
    }

    /// The well-formed state whose window is the `k`-th one.
    pub open spec fn at_layer(self, k: nat) -> CyclerState {
        CyclerState {
            pool_size: self.pool_size,
            window_size: self.window_size,
            start: k * self.window_size,
            end: k * self.window_size + self.window_size,
        }
    }
}

/// Errors in the configuration of an [`InstanceWindowCycler`].
#[derive(Debug, Clone, Copy, PartialEq, Eq, Structural)]
pub enum CyclerError {
    /// The window would hold no instance.
    EmptyWindow,
    /// The window is larger than the pool it slides over.
    WindowLargerThanPool,
}

/// Slides a window of `window_size` instances over a pool of `pool_size`
/// instances, one window further on each `advance`, wrapping to the start.
#[derive(Debug, Clone, Copy)]
pub struct InstanceWindowCycler {
    pool_size: u32,
    window_size: u32,
    window_start: u32,
    window_end: u32,
}

impl View for InstanceWindowCycler {
    type V = CyclerState;

    closed spec fn view(&self) -> CyclerState {
        CyclerState {
            pool_size: self.pool_size as nat,
            window_size: self.window_size as nat,
            start: self.window_start as nat,
            end: self.window_end as nat,
        }
    }
}

impl InstanceWindowCycler {
    #[verifier::type_invariant]
    spec fn inv(self) -> bool {
        self@.wf()
    }

    /// Creates a cycler whose window covers the first `window_size` instances.
    /// Fails if the window is empty or larger than the pool.
    pub fn new(pool_size: u32, window_size: u32) -> (r: Result<InstanceWindowCycler, CyclerError>)
        ensures
            window_size == 0 ==> r == Err::<InstanceWindowCycler, CyclerError>(
                CyclerError::EmptyWindow,
            ),
            0 < window_size && pool_size < window_size ==> r == Err::<
                InstanceWindowCycler,
                CyclerError,
            >(CyclerError::WindowLargerThanPool),
            0 < window_size <= pool_size ==> match r {
                Ok(c) => c@ == CyclerState::initial(pool_size as nat, window_size as nat),
                Err(_) => false,
            },
    {
        if window_size == 0 {
            Err(CyclerError::EmptyWindow)
        } else if window_size > pool_size {
            Err(CyclerError::WindowLargerThanPool)
        } else {
            let c = InstanceWindowCycler { pool_size, window_size, window_start: 0, window_end: window_size };
            proof {
                vstd::arithmetic::div_mod::lemma_mod_self_0(window_size as int);
                vstd::arithmetic::div_mod::lemma_small_mod(0, window_size as nat);
            }
            Ok(c)
        }
    }

    /// Moves the window one step forward, wrapping to the first window when
    /// the next one would not fit in the pool.
    pub fn advance(&mut self)
        ensures
            final(self)@ == old(self)@.next(),
            final(self)@.wf(),
    {
        proof {
            use_type_invariant(&*self);
        }
        let step = self.window_size;
        let start = if self.window_start + step <= self.pool_size - step {
            self.window_start + step
        } else {
            0
        };
        let end = if self.window_end <= self.pool_size - step {
            self.window_end + step
        } else {
            step
        };
        proof {
            lemma_next_wf(self@);
        }
        *self = InstanceWindowCycler {
            pool_size: self.pool_size,
            window_size: step,
            window_start: start,
            window_end: end,
        };
    }

    /// The first instance of the current window.
    pub fn window_start(&self) -> (r: u32)
        ensures
            r as nat == self@.start,
    {
        self.window_start
    }

    /// One past the last instance of the current window.
    pub fn window_end(&self) -> (r: u32)
        ensures
            r as nat == self@.end,
    {
        self.window_end
    }

    /// The number of instances in the pool.
    pub fn pool_size(&self) -> (r: u32)
        ensures
            r as nat == self@.pool_size,
    {
        self.pool_size
    }

    /// The number of instances in each window.
    pub fn window_size(&self) -> (r: u32)
        ensures
            r as nat == self@.window_size,
    {
        self.window_size
    }
}

/// One step keeps the state well formed.
pub proof fn lemma_next_wf(s: CyclerState)
    requires
        s.wf(),
    ensures
        s.next().wf(),
        s.next().pool_size == s.pool_size,
        s.next().window_size == s.window_size,
{
    let w = s.window_size as int;
    if s.start + s.window_size <= s.pool_size - s.window_size {
        vstd::arithmetic::div_mod::lemma_mod_adds(s.start as int, w, w);
        vstd::arithmetic::div_mod::lemma_mod_self_0(w);
    } else {
        vstd::arithmetic::div_mod::lemma_small_mod(0, s.window_size);
    }
}

/// A well-formed state is the `layer()`-th window, and that index is below
/// the number of whole windows in the pool.
pub proof fn lemma_layer_of_wf(s: CyclerState)
    requires
        s.wf(),
    ensures
        s.layer() < s.layer_count(),
        s == s.at_layer(s.layer()),
{
    let w = s.window_size as int;
    let k = s.layer() as int;
    let m = s.layer_count() as int;
    let r = s.pool_size as int % w;
    vstd::arithmetic::div_mod::lemma_fundamental_div_mod(s.start as int, w);
    vstd::arithmetic::div_mod::lemma_fundamental_div_mod(s.pool_size as int, w);
    assert(s.start == k * w) by (nonlinear_arith)
        requires
            s.start == w * k,
    ;
    assert(k < m) by (nonlinear_arith)
        requires
            w > 0,
            0 <= r < w,
            w * k + w <= w * m + r,
    ;
}

/// The `k`-th window, for `k` below the number of whole windows, is well
/// formed and has index `k`.
pub proof fn lemma_at_layer_wf(s: CyclerState, k: nat)
    requires
        0 < s.window_size <= s.pool_size,
        k < s.layer_count(),
    ensures
        s.at_layer(k).wf(),
        s.at_layer(k).layer() == k,
{
    let w = s.window_size as int;
    let m = s.layer_count() as int;
    let r = s.pool_size as int % w;
    vstd::arithmetic::div_mod::lemma_fundamental_div_mod(s.pool_size as int, w);
    assert(k * w + w <= w * m + r) by (nonlinear_arith)
        requires
            w > 0,
            0 <= r,
            k + 1 <= m,
    ;
    vstd::arithmetic::div_mod::lemma_mod_multiples_vanish(k as int, 0, w);
    vstd::arithmetic::div_mod::lemma_div_multiples_vanish(k as int, w);
    assert(k * w == w * k) by (nonlinear_arith);
}

/// One `advance` moves to the next window, and from the last whole window
/// back to the first.
pub proof fn lemma_next_is_next_layer(s: CyclerState)
    requires
        s.wf(),
    ensures
        s.next() == s.at_layer((s.layer() + 1) % s.layer_count()),
        s.next().layer() == (s.layer() + 1) % s.layer_count(),
{
    lemma_layer_of_wf(s);
    lemma_next_wf(s);
    let w = s.window_size as int;
    let k = s.layer() as int;
    let m = s.layer_count() as int;
    let r = s.pool_size as int % w;
    vstd::arithmetic::div_mod::lemma_fundamental_div_mod(s.pool_size as int, w);
    if k + 1 < m {
        assert(k * w + w + w <= w * m + r) by (nonlinear_arith)
            requires
                w > 0,
                0 <= r,
                k + 2 <= m,
        ;
        assert((k + 1) * w == k * w + w) by (nonlinear_arith);
        vstd::arithmetic::div_mod::lemma_small_mod((k + 1) as nat, m as nat);
    } else {
        assert(k * w + w + w > w * m + r) by (nonlinear_arith)
            requires
                w > 0,
                r < w,
                k + 1 >= m,
        ;
        vstd::arithmetic::div_mod::lemma_mod_self_0(m);
        assert(0 * w == 0) by (nonlinear_arith);
    }
    lemma_at_layer_wf(s, ((s.layer() + 1) % s.layer_count()) as nat);
}

/// After `n` calls of `advance` a well-formed state is at window
/// `(layer + n) mod layer_count`, and is still well formed.
pub proof fn lemma_advanced_by_layer(s: CyclerState, n: nat)
    requires
        s.wf(),
    ensures
        s.advanced_by(n).wf(),
        s.advanced_by(n) == s.at_layer((s.layer() + n) % s.layer_count()),
    decreases n,
{
    lemma_layer_of_wf(s);
    let m = s.layer_count() as int;
    if n == 0 {
        vstd::arithmetic::div_mod::lemma_small_mod(s.layer(), m as nat);
    } else {
        lemma_advanced_by_layer(s, (n - 1) as nat);
        let p = s.advanced_by((n - 1) as nat);
        lemma_at_layer_wf(s, ((s.layer() + n - 1) % m) as nat);
        lemma_next_is_next_layer(p);
        vstd::arithmetic::div_mod::lemma_add_mod_noop_right(1, (s.layer() + n - 1) as int, m);
        lemma_next_wf(p);
    }
}

/// The sweep is periodic: from any well-formed state, `pool_size / window_size`
/// calls of `advance` lead back to the same window.
pub proof fn lemma_sweep_period(s: CyclerState)
    requires
        s.wf(),
    ensures
        s.advanced_by(s.layer_count()) == s,
        forall|n: nat| 0 < n < s.layer_count() ==> s.advanced_by(n) != s,
{
    lemma_layer_of_wf(s);
    let m = s.layer_count() as int;
    lemma_advanced_by_layer(s, s.layer_count());
    vstd::arithmetic::div_mod::lemma_mod_adds(s.layer() as int, m, m);
    vstd::arithmetic::div_mod::lemma_mod_self_0(m);
    vstd::arithmetic::div_mod::lemma_small_mod(s.layer(), m as nat);
    assert forall|n: nat| 0 < n < s.layer_count() implies s.advanced_by(n) != s by {
        lemma_advanced_by_layer(s, n);
        let j = ((s.layer() + n) % s.layer_count()) as nat;
        lemma_at_layer_wf(s, j);
        if s.advanced_by(n) == s {
            assert(j == s.layer());
            let l = s.layer() as int;
            let t = l + n as int;
            vstd::arithmetic::div_mod::lemma_fundamental_div_mod(t, m);
            assert(t / m <= 1) by (nonlinear_arith)
                requires
                    0 <= l < m,
                    0 < n < m,
                    t == l + n,
                    t == m * (t / m) + t % m,
                    0 <= t % m,
            ;
        }
    }
}

/// Starting from the first window of a pool four windows long, four calls of
/// `advance` visit the second, third and fourth windows and then wrap to the
/// first.
pub proof fn lemma_four_layer_sweep(window_size: nat)
    requires
        window_size > 0,
    ensures
        ({
            let s = CyclerState::initial(4 * window_size, window_size);
            &&& s.advanced_by(1).start == window_size && s.advanced_by(1).end == 2 * window_size
            &&& s.advanced_by(2).start == 2 * window_size && s.advanced_by(2).end == 3 * window_size
            &&& s.advanced_by(3).start == 3 * window_size && s.advanced_by(3).end == 4 * window_size
            &&& s.advanced_by(4).start == 0 && s.advanced_by(4).end == window_size
        }),
{
    let s = CyclerState::initial(4 * window_size, window_size);
    assert(s.advanced_by(0) == s);
    assert(s.advanced_by(1) == s.next());
    assert(s.advanced_by(2) == s.advanced_by(1).next());
    assert(s.advanced_by(3) == s.advanced_by(2).next());
    assert(s.advanced_by(4) == s.advanced_by(3).next());
}

} // verus!
