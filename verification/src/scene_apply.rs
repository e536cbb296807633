//! The mixer-state writes the proprietary USB backend makes after a scene's
//! crosspoints, masters and preamp block are written: loopback is written
//! for every output (its flag map is cleared by the stream init), the
//! other states only when set, since their writes would otherwise clobber
//! fader values or flip unset states.
use vstd::prelude::*;

verus! {

/// One write of the scene follow-up.
#[derive(Debug, Clone, Copy, PartialEq, Eq, Structural)]
pub enum SceneFollowup {
    /// Loopback of output pair `output` (written for every output).
    Loopback { output: usize, on: bool },
    /// AN 1>2 engaged.
    An12,
    /// MS processing engaged.
    MsProc,
    /// The FX send level.
    FxSend,
    /// The stereo width.
    Width,
    /// Phase invert of input `input`.
    Phase { input: usize },
    /// Reference level `raw` of input `input`.
    RefLevel { input: usize, raw: u16 },
    /// Stereo split of the playback pair starting at `playback`.
    StereoSplit { playback: usize },
}

/// The loopback writes: one per output, in order.
pub open spec fn loopback_steps(loopback: Seq<bool>, n: int) -> Seq<SceneFollowup>
    decreases n,
{
    if n <= 0 {
        Seq::empty()
    } else {
        loopback_steps(loopback, n - 1).push(
            SceneFollowup::Loopback { output: (n - 1) as usize, on: loopback[n - 1] },
        )
    }
}

/// The global-state writes, in order: AN 1>2, MS proc, FX send, width,
/// each only when set.
pub open spec fn flag_steps(an12: bool, ms_proc: bool, has_fx_send: bool, has_width: bool) -> Seq<
    SceneFollowup,
> {
    (if an12 {
        seq![SceneFollowup::An12]
    } else {
        Seq::empty()
    }) + (if ms_proc {
        seq![SceneFollowup::MsProc]
    } else {
        Seq::empty()
    }) + (if has_fx_send {
        seq![SceneFollowup::FxSend]
    } else {
        Seq::empty()
    }) + (if has_width {
        seq![SceneFollowup::Width]
    } else {
        Seq::empty()
    })
}

/// The per-input writes of the first `n` inputs: phase when inverted, then
/// the ref level when set (non-zero).
pub open spec fn input_steps(phase: Seq<bool>, ref_level: Seq<u16>, n: int) -> Seq<SceneFollowup>
    decreases n,
{
    if n <= 0 {
        Seq::empty()
    } else {
        input_steps(phase, ref_level, n - 1) + (if phase[n - 1] {
            seq![SceneFollowup::Phase { input: (n - 1) as usize }]
        } else {
            Seq::empty()
        }) + (if ref_level[n - 1] != 0 {
            seq![SceneFollowup::RefLevel { input: (n - 1) as usize, raw: ref_level[n - 1] }]
        } else {
            Seq::empty()
        })
    }
}

/// The stereo-split writes among the first `n` playbacks: one per split
/// pair, at its left (even) channel.
pub open spec fn split_steps(split: Seq<bool>, n: int) -> Seq<SceneFollowup>
    decreases n,
{
    if n <= 0 {
        Seq::empty()
    } else {
        split_steps(split, n - 1) + (if (n - 1) % 2 == 0 && split[n - 1] {
            seq![SceneFollowup::StereoSplit { playback: (n - 1) as usize }]
        } else {
            Seq::empty()
        })
    }
}

/// All follow-up writes of a scene: the loopback map, the global states,
/// the per-input states, the stereo splits.
pub open spec fn followup_writes(
    loopback: Seq<bool>,
    an12: bool,
    ms_proc: bool,
    has_fx_send: bool,
    has_width: bool,
    phase: Seq<bool>,
    ref_level: Seq<u16>,
    split: Seq<bool>,
) -> Seq<SceneFollowup> {
    loopback_steps(loopback, loopback.len() as int) + flag_steps(an12, ms_proc, has_fx_send, has_width)
        + input_steps(phase, ref_level, phase.len() as int) + split_steps(split, split.len() as int)
}

/// The follow-up writes of a scene, in the order they are made.
pub fn scene_followups(
    loopback: &Vec<bool>,
    an12: bool,
    ms_proc: bool,
    has_fx_send: bool,
    has_width: bool,
    phase: &Vec<bool>,
    ref_level: &Vec<u16>,
    split: &Vec<bool>,
) -> (r: Vec<SceneFollowup>)
    requires
        phase@.len() == ref_level@.len(),
    ensures
        r@ == loopback_steps(loopback@, loopback@.len() as int) + flag_steps(
            an12,
            ms_proc,
            has_fx_send,
            has_width,
        ) + input_steps(phase@, ref_level@, phase@.len() as int) + split_steps(
            split@,
            split@.len() as int,
        ),
        r@ == followup_writes(loopback@, an12, ms_proc, has_fx_send, has_width, phase@, ref_level@, split@),
{
    let mut v: Vec<SceneFollowup> = Vec::new();
    let mut o: usize = 0;
    while o < loopback.len()
        invariant
            o <= loopback@.len(),
            v@ == loopback_steps(loopback@, o as int),
        decreases loopback@.len() - o,
    {
        v.push(SceneFollowup::Loopback { output: o, on: loopback[o] });
        o = o + 1;
    }
    let ghost a = v@;
    if an12 {
        v.push(SceneFollowup::An12);
    }
    if ms_proc {
        v.push(SceneFollowup::MsProc);
    }
    if has_fx_send {
        v.push(SceneFollowup::FxSend);
    }
    if has_width {
        v.push(SceneFollowup::Width);
    }
    assert(v@ =~= a + flag_steps(an12, ms_proc, has_fx_send, has_width));
    let ghost b = v@;
    let mut i: usize = 0;
    while i < phase.len()
        invariant
            i <= phase@.len(),
            phase@.len() == ref_level@.len(),
            v@ == b + input_steps(phase@, ref_level@, i as int),
        decreases phase@.len() - i,
    {
        let ghost before = v@;
        if phase[i] {
            v.push(SceneFollowup::Phase { input: i });
        }
        let ghost mid = v@;
        if ref_level[i] != 0 {
            v.push(SceneFollowup::RefLevel { input: i, raw: ref_level[i] });
        }
        proof {
            let p = if phase@[i as int] {
                seq![SceneFollowup::Phase { input: i }]
            } else {
                Seq::<SceneFollowup>::empty()
            };
            let q = if ref_level@[i as int] != 0 {
                seq![SceneFollowup::RefLevel { input: i, raw: ref_level@[i as int] }]
            } else {
                Seq::<SceneFollowup>::empty()
            };
            assert(mid =~= before + p);
            assert(v@ =~= mid + q);
            assert(input_steps(phase@, ref_level@, i + 1) == input_steps(phase@, ref_level@, i as int)
                + p + q);
            assert(v@ =~= b + input_steps(phase@, ref_level@, i + 1));
        }
        i = i + 1;
    }
    let ghost c = v@;
    let mut k: usize = 0;
    while k < split.len()
        invariant
            k <= split@.len(),
            v@ == c + split_steps(split@, k as int),
        decreases split@.len() - k,
    {
        let ghost before = v@;
        if k % 2 == 0 && split[k] {
            v.push(SceneFollowup::StereoSplit { playback: k });
        }
        proof {
            let p = if k % 2 == 0 && split@[k as int] {
                seq![SceneFollowup::StereoSplit { playback: k }]
            } else {
                Seq::<SceneFollowup>::empty()
            };
            assert(v@ =~= before + p);
            assert(split_steps(split@, k + 1) == split_steps(split@, k as int) + p);
            assert(v@ =~= c + split_steps(split@, k + 1));
        }
        k = k + 1;
    }
    v
}

// ── Laws ─────────────────────────────────────────────────────────

/// Loopback is written for every output, whatever its state: the
/// loopback writes are exactly one per output, in output order.
pub proof fn lemma_loopback_written_for_every_output(loopback: Seq<bool>, n: int, o: int)
    requires
        0 <= o < n <= loopback.len(),
        n <= usize::MAX,
    ensures
        loopback_steps(loopback, n).len() == n,
        loopback_steps(loopback, n)[o] == (SceneFollowup::Loopback { output: o as usize, on: loopback[o] }),
    decreases n,
{
    if o < n - 1 {
        lemma_loopback_written_for_every_output(loopback, n - 1, o);
    }
    if n > 1 {
        lemma_loopback_len(loopback, n - 1);
    }
}

proof fn lemma_loopback_len(loopback: Seq<bool>, n: int)
    requires
        0 <= n,
    ensures
        loopback_steps(loopback, n).len() == n,
    decreases n,
{
    if n > 0 {
        lemma_loopback_len(loopback, n - 1);
    }
}

/// A scene with nothing set writes only the loopback map.
pub proof fn lemma_unset_scene_writes_only_loopback(phase: Seq<bool>, ref_level: Seq<u16>, split: Seq<bool>, n: int, m: int)
    requires
        0 <= n <= phase.len(),
        n <= ref_level.len(),
        0 <= m <= split.len(),
        forall|i: int| 0 <= i < phase.len() ==> !#[trigger] phase[i],
        forall|i: int| 0 <= i < ref_level.len() ==> #[trigger] ref_level[i] == 0,
        forall|i: int| 0 <= i < split.len() ==> !#[trigger] split[i],
    ensures
        flag_steps(false, false, false, false).len() == 0,
        input_steps(phase, ref_level, n).len() == 0,
        split_steps(split, m).len() == 0,
    decreases n + m,
{
    assert(flag_steps(false, false, false, false) =~= Seq::<SceneFollowup>::empty());
    if n > 0 {
        lemma_unset_scene_writes_only_loopback(phase, ref_level, split, n - 1, m);
        assert(input_steps(phase, ref_level, n) =~= input_steps(phase, ref_level, n - 1));
    }
    if m > 0 {
        lemma_unset_scene_writes_only_loopback(phase, ref_level, split, 0, m - 1);
        assert(split_steps(split, m) =~= split_steps(split, m - 1));
    }
}

/// What each write among the first `n` inputs' writes is: a phase write
/// of an inverted input, or the ref-level write of an input with a set
/// (non-zero) ref level, carrying that level.
proof fn lemma_input_steps_elements(phase: Seq<bool>, ref_level: Seq<u16>, n: int)
    requires
        0 <= n <= phase.len(),
        n <= ref_level.len(),
        n <= usize::MAX + 1,
    ensures
        forall|j: int|
            0 <= j < input_steps(phase, ref_level, n).len() ==> match #[trigger] input_steps(
                phase,
                ref_level,
                n,
            )[j] {
                SceneFollowup::Phase { input } => input < n && phase[input as int],
                SceneFollowup::RefLevel { input, raw } => input < n && raw == ref_level[input as int]
                    && raw != 0,
                _ => false,
            },
    decreases n,
{
    if n > 0 {
        lemma_input_steps_elements(phase, ref_level, n - 1);
        let a = input_steps(phase, ref_level, n - 1);
        let p = if phase[n - 1] {
            seq![SceneFollowup::Phase { input: (n - 1) as usize }]
        } else {
            Seq::<SceneFollowup>::empty()
        };
        let q = if ref_level[n - 1] != 0 {
            seq![SceneFollowup::RefLevel { input: (n - 1) as usize, raw: ref_level[n - 1] }]
        } else {
            Seq::<SceneFollowup>::empty()
        };
        let t = input_steps(phase, ref_level, n);
        assert(t =~= a + p + q);
        assert forall|j: int| 0 <= j < t.len() implies match #[trigger] t[j] {
            SceneFollowup::Phase { input } => input < n && phase[input as int],
            SceneFollowup::RefLevel { input, raw } => input < n && raw == ref_level[input as int]
                && raw != 0,
            _ => false,
        } by {
            if j < a.len() {
                assert(t[j] == a[j]);
            } else if j < a.len() + p.len() {
                assert(t[j] == p[j - a.len()]);
            } else {
                assert(t[j] == q[j - a.len() - p.len()]);
            }
        }
    }
}

/// Every input `i` below `n` with a set ref level, or inverted phase, has
/// its write among the first `n` inputs' writes.
proof fn lemma_input_steps_cover(phase: Seq<bool>, ref_level: Seq<u16>, n: int, i: int)
    requires
        0 <= i < n <= phase.len(),
        n <= ref_level.len(),
        n <= usize::MAX + 1,
    ensures
        ref_level[i] != 0 ==> input_steps(phase, ref_level, n).contains(
            SceneFollowup::RefLevel { input: i as usize, raw: ref_level[i] },
        ),
        phase[i] ==> input_steps(phase, ref_level, n).contains(SceneFollowup::Phase { input: i as usize }),
    decreases n,
{
    let a = input_steps(phase, ref_level, n - 1);
    let p = if phase[n - 1] {
        seq![SceneFollowup::Phase { input: (n - 1) as usize }]
    } else {
        Seq::<SceneFollowup>::empty()
    };
    let q = if ref_level[n - 1] != 0 {
        seq![SceneFollowup::RefLevel { input: (n - 1) as usize, raw: ref_level[n - 1] }]
    } else {
        Seq::<SceneFollowup>::empty()
    };
    let t = input_steps(phase, ref_level, n);
    assert(t =~= a + p + q);
    if i < n - 1 {
        lemma_input_steps_cover(phase, ref_level, n - 1, i);
        if ref_level[i] != 0 {
            let j = choose|j: int| 0 <= j < a.len() && a[j] == SceneFollowup::RefLevel {
                input: i as usize,
                raw: ref_level[i],
            };
            assert(t[j] == a[j]);
        }
        if phase[i] {
            let j = choose|j: int| 0 <= j < a.len() && a[j] == SceneFollowup::Phase { input: i as usize };
            assert(t[j] == a[j]);
        }
    } else {
        if ref_level[i] != 0 {
            assert(t[(a.len() + p.len()) as int] == SceneFollowup::RefLevel {
                input: i as usize,
                raw: ref_level[i],
            });
        }
        if phase[i] {
            assert(t[a.len() as int] == SceneFollowup::Phase { input: i as usize });
        }
    }
}

/// The loopback writes are all loopback writes.
proof fn lemma_loopback_steps_elements(loopback: Seq<bool>, n: int)
    ensures
        forall|j: int|
            0 <= j < loopback_steps(loopback, n).len() ==> #[trigger] loopback_steps(loopback, n)[j] is Loopback,
    decreases n,
{
    if n > 0 {
        lemma_loopback_steps_elements(loopback, n - 1);
    }
}

/// The stereo-split writes are one per split pair, at its even channel.
proof fn lemma_split_steps_elements(split: Seq<bool>, n: int)
    requires
        n <= usize::MAX + 1,
    ensures
        forall|j: int|
            0 <= j < split_steps(split, n).len() ==> match #[trigger] split_steps(split, n)[j] {
                SceneFollowup::StereoSplit { playback } => playback < n && playback % 2 == 0
                    && split[playback as int],
                _ => false,
            },
    decreases n,
{
    if n > 0 {
        lemma_split_steps_elements(split, n - 1);
        let a = split_steps(split, n - 1);
        let p = if (n - 1) % 2 == 0 && split[n - 1] {
            seq![SceneFollowup::StereoSplit { playback: (n - 1) as usize }]
        } else {
            Seq::<SceneFollowup>::empty()
        };
        let t = split_steps(split, n);
        assert(t =~= a + p);
        assert forall|j: int| 0 <= j < t.len() implies match #[trigger] t[j] {
            SceneFollowup::StereoSplit { playback } => playback < n && playback % 2 == 0
                && split[playback as int],
            _ => false,
        } by {
            if j < a.len() {
                assert(t[j] == a[j]);
            } else {
                assert(t[j] == p[j - a.len()]);
            }
        }
    }
}

/// Every split pair among the first `n` playbacks has its write.
proof fn lemma_split_steps_cover(split: Seq<bool>, n: int, k: int)
    requires
        0 <= k < n <= split.len(),
        n <= usize::MAX + 1,
        k % 2 == 0,
        split[k],
    ensures
        split_steps(split, n).contains(SceneFollowup::StereoSplit { playback: k as usize }),
    decreases n,
{
    let a = split_steps(split, n - 1);
    let t = split_steps(split, n);
    if k < n - 1 {
        lemma_split_steps_cover(split, n - 1, k);
        let j = choose|j: int| 0 <= j < a.len() && a[j] == SceneFollowup::StereoSplit { playback: k as usize };
        assert(t[j] == a[j]);
    } else {
        assert(t[a.len() as int] == SceneFollowup::StereoSplit { playback: k as usize });
    }
}

/// Recalling a scene writes each set state and no unset one: every input
/// with a set (non-zero) ref level gets its level written, and every
/// ref-level write is of an input with a set level and carries exactly
/// that level (so an unset input gets none); every
/// inverted input gets a phase write and no other input does; every
/// split pair gets a stereo-split write at its even channel and no other
/// playback does; each global state is written exactly when it is set.
pub proof fn lemma_recall_writes_every_set_state(
    loopback: Seq<bool>,
    an12: bool,
    ms_proc: bool,
    has_fx_send: bool,
    has_width: bool,
    phase: Seq<bool>,
    ref_level: Seq<u16>,
    split: Seq<bool>,
    i: int,
    k: int,
)
    requires
        phase.len() == ref_level.len(),
        phase.len() <= usize::MAX,
        split.len() <= usize::MAX,
    ensures
        ({
            let w = followup_writes(loopback, an12, ms_proc, has_fx_send, has_width, phase, ref_level, split);
            &&& 0 <= i < phase.len() && ref_level[i] != 0 ==> w.contains(
                SceneFollowup::RefLevel { input: i as usize, raw: ref_level[i] },
            )
            &&& forall|j: int|
                0 <= j < w.len() ==> (#[trigger] w[j] matches SceneFollowup::RefLevel { input, raw } ==> (
                input < phase.len() && raw == ref_level[input as int] && raw != 0))
            &&& 0 <= i < phase.len() ==> (w.contains(SceneFollowup::Phase { input: i as usize })
                <==> phase[i])
            &&& 0 <= k < split.len() ==> (w.contains(SceneFollowup::StereoSplit { playback: k as usize })
                <==> (k % 2 == 0 && split[k]))
            &&& w.contains(SceneFollowup::An12) <==> an12
            &&& w.contains(SceneFollowup::MsProc) <==> ms_proc
            &&& w.contains(SceneFollowup::FxSend) <==> has_fx_send
            &&& w.contains(SceneFollowup::Width) <==> has_width
        }),
{
    let a = loopback_steps(loopback, loopback.len() as int);
    let f = flag_steps(an12, ms_proc, has_fx_send, has_width);
    let b = input_steps(phase, ref_level, phase.len() as int);
    let c = split_steps(split, split.len() as int);
    let w = followup_writes(loopback, an12, ms_proc, has_fx_send, has_width, phase, ref_level, split);
    assert(w =~= a + f + b + c);
    lemma_loopback_steps_elements(loopback, loopback.len() as int);
    lemma_input_steps_elements(phase, ref_level, phase.len() as int);
    lemma_split_steps_elements(split, split.len() as int);
    let f1 = if an12 { seq![SceneFollowup::An12] } else { Seq::<SceneFollowup>::empty() };
    let f2 = if ms_proc { seq![SceneFollowup::MsProc] } else { Seq::<SceneFollowup>::empty() };
    let f3 = if has_fx_send { seq![SceneFollowup::FxSend] } else { Seq::<SceneFollowup>::empty() };
    let f4 = if has_width { seq![SceneFollowup::Width] } else { Seq::<SceneFollowup>::empty() };
    assert(f =~= f1 + f2 + f3 + f4);
    // Where an element of the whole sequence comes from.
    assert forall|j: int| 0 <= j < w.len() implies {
        ||| (j < a.len() && #[trigger] w[j] == a[j])
        ||| (a.len() <= j < a.len() + f.len() && w[j] == f[j - a.len()])
        ||| (a.len() + f.len() <= j < a.len() + f.len() + b.len() && w[j] == b[j - a.len() - f.len()])
        ||| (a.len() + f.len() + b.len() <= j && w[j] == c[j - a.len() - f.len() - b.len()])
    } by {
    }
    // The flag writes.
    assert forall|j: int| 0 <= j < f.len() implies {
        ||| (#[trigger] f[j] == SceneFollowup::An12 && an12)
        ||| (f[j] == SceneFollowup::MsProc && ms_proc)
        ||| (f[j] == SceneFollowup::FxSend && has_fx_send)
        ||| (f[j] == SceneFollowup::Width && has_width)
    } by {
        if j < f1.len() {
            assert(f[j] == f1[j]);
        } else if j < f1.len() + f2.len() {
            assert(f[j] == f2[j - f1.len()]);
        } else if j < f1.len() + f2.len() + f3.len() {
            assert(f[j] == f3[j - f1.len() - f2.len()]);
        } else {
            assert(f[j] == f4[j - f1.len() - f2.len() - f3.len()]);
        }
    }
    if an12 {
        assert(w[a.len() as int] == SceneFollowup::An12);
    }
    if ms_proc {
        assert(w[(a.len() + f1.len()) as int] == SceneFollowup::MsProc);
    }
    if has_fx_send {
        assert(w[(a.len() + f1.len() + f2.len()) as int] == SceneFollowup::FxSend);
    }
    if has_width {
        assert(w[(a.len() + f1.len() + f2.len() + f3.len()) as int] == SceneFollowup::Width);
    }
    if 0 <= i < phase.len() {
        lemma_input_steps_cover(phase, ref_level, phase.len() as int, i);
        if ref_level[i] != 0 {
            let j = choose|j: int| 0 <= j < b.len() && b[j] == SceneFollowup::RefLevel {
                input: i as usize,
                raw: ref_level[i],
            };
            assert(w[a.len() + f.len() + j] == b[j]);
        }
        if phase[i] {
            let j = choose|j: int| 0 <= j < b.len() && b[j] == SceneFollowup::Phase { input: i as usize };
            assert(w[a.len() + f.len() + j] == b[j]);
        }
    }
    if 0 <= k < split.len() && k % 2 == 0 && split[k] {
        lemma_split_steps_cover(split, split.len() as int, k);
        let j = choose|j: int| 0 <= j < c.len() && c[j] == SceneFollowup::StereoSplit { playback: k as usize };
        assert(w[a.len() + f.len() + b.len() + j] == c[j]);
    }
}

} // verus!
