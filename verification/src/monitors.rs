//! Monitor layout: which outputs the RandR extension reports as displaying,
//! the size of the virtual screen, and the monitor the ring is centred on.

use vstd::prelude::*;

verus! {

broadcast use vstd::seq_lib::group_seq_properties, vstd::seq_lib::group_filter_ensures;

/// Information about a single monitor.
#[derive(Debug, Clone)]
pub struct Monitor {
    /// Monitor name (e.g., "eDP-1", "HDMI-1")
    pub name: String,
    /// X position in virtual screen
    pub x: i16,
    /// Y position in virtual screen
    pub y: i16,
    /// Width in pixels
    pub width: u16,
    /// Height in pixels
    pub height: u16,
    /// Whether this is the primary monitor
    pub primary: bool,
}

/// Configuration of all connected monitors.
#[derive(Debug, Clone)]
pub struct MonitorConfig {
    /// List of connected monitors
    pub monitors: Vec<Monitor>,
    /// Total virtual screen width
    pub total_width: u16,
    /// Total virtual screen height
    pub total_height: u16,
}

/// Position, size and mode of the CRTC an output is shown on.
#[derive(Debug, Clone, Copy)]
pub struct CrtcGeometry {
    pub x: i16,
    pub y: i16,
    pub width: u16,
    pub height: u16,
    /// Mode of the CRTC; zero when it is disabled.
    pub mode: u32,
}

/// What the RandR extension reported of one output.
#[derive(Debug, Clone)]
pub struct OutputReport {
    /// The output's identifier.
    pub output: u32,
    /// The output's name.
    pub name: String,
    /// Whether a display is connected.
    pub connected: bool,
    /// The CRTC showing the output; zero when there is none.
    pub crtc: u32,
    /// The CRTC's geometry, when it was read.
    pub geometry: Option<CrtcGeometry>,
}

/// An output is worth asking the CRTC of when a display is connected and a
/// CRTC shows it.
pub open spec fn shows_something(connected: bool, crtc: u32) -> bool {
    connected && crtc != 0
}

/// The monitor an output report describes, when it is displaying.
pub open spec fn monitor_of(r: OutputReport, primary: u32) -> Option<Monitor> {
    if shows_something(r.connected, r.crtc) {
        match r.geometry {
            Some(g) => if g.mode != 0 {
                Some(
                    Monitor {
                        name: r.name,
                        x: g.x,
                        y: g.y,
                        width: g.width,
                        height: g.height,
                        primary: r.output == primary,
                    },
                )
            } else {
                None
            },
            None => None,
        }
    } else {
        None
    }
}

/// The monitors of the displaying outputs, in report order.
pub open spec fn detected(rs: Seq<OutputReport>, primary: u32) -> Seq<Monitor>
    decreases rs.len(),
{
    if rs.len() == 0 {
        Seq::empty()
    } else {
        let d = detected(rs.drop_last(), primary);
        match monitor_of(rs.last(), primary) {
            Some(m) => d.push(m),
            None => d,
        }
    }
}

/// Right edge of a monitor as the original computes it: the position
/// reinterpreted as unsigned, plus the width.
pub open spec fn right_edge(m: Monitor) -> int {
    (m.x as u32) + (m.width as u32)
}

/// Bottom edge of a monitor, computed the same way.
pub open spec fn bottom_edge(m: Monitor) -> int {
    (m.y as u32) + (m.height as u32)
}

/// The largest right edge, zero for no monitor.
pub open spec fn max_right(s: Seq<Monitor>) -> int
    decreases s.len(),
{
    if s.len() == 0 {
        0
    } else {
        let m = max_right(s.drop_last());
        if right_edge(s.last()) > m {
            right_edge(s.last())
        } else {
            m
        }
    }
}

/// The largest bottom edge, zero for no monitor.
pub open spec fn max_bottom(s: Seq<Monitor>) -> int
    decreases s.len(),
{
    if s.len() == 0 {
        0
    } else {
        let m = max_bottom(s.drop_last());
        if bottom_edge(s.last()) > m {
            bottom_edge(s.last())
        } else {
            m
        }
    }
}

/// No edge of the monitors overflows a `u32`.
pub open spec fn edges_fit(s: Seq<Monitor>) -> bool {
    forall|i: int|
        0 <= i < s.len() ==> right_edge(#[trigger] s[i]) <= u32::MAX && bottom_edge(s[i])
            <= u32::MAX
}

/// Monitor order: primary monitors first, then by horizontal position.
pub open spec fn key_le(a: Monitor, b: Monitor) -> bool {
    (a.primary && !b.primary) || (a.primary == b.primary && a.x <= b.x)
}

/// The monitors are in monitor order.
pub open spec fn sorted_by_key(s: Seq<Monitor>) -> bool {
    forall|i: int, j: int| 0 <= i < j < s.len() ==> key_le(#[trigger] s[i], #[trigger] s[j])
}

/// Monitors with the given primary flag and position.
pub open spec fn same_key(p: bool, x: i16) -> spec_fn(Monitor) -> bool {
    |m: Monitor| m.primary == p && m.x == x
}

/// `r` is `s` sorted into monitor order, monitors that compare equal keeping
/// their order in `s`.
pub open spec fn stable_sort_of(r: Seq<Monitor>, s: Seq<Monitor>) -> bool {
    &&& sorted_by_key(r)
    &&& forall|p: bool, x: i16| #[trigger] r.filter(same_key(p, x)) == s.filter(same_key(p, x))
}

/// The index of the monitor `MonitorConfig::primary` returns: the first
/// primary monitor, or the first monitor when none is primary.
pub open spec fn is_chosen(s: Seq<Monitor>, i: int) -> bool {
    &&& 0 <= i < s.len()
    &&& if exists|j: int| 0 <= j < s.len() && #[trigger] s[j].primary {
        s[i].primary && forall|j: int| 0 <= j < i ==> !(#[trigger] s[j].primary)
    } else {
        i == 0
    }
}

/// Inserting a monitor after all monitors that are not after it keeps a
/// stable sort stable.
proof fn lemma_insert_sorted(r: Seq<Monitor>, s: Seq<Monitor>, m: Monitor, pos: int)
    requires
        stable_sort_of(r, s),
        0 <= pos <= r.len(),
        forall|i: int| 0 <= i < pos ==> key_le(#[trigger] r[i], m),
        forall|i: int| pos <= i < r.len() ==> !key_le(#[trigger] r[i], m),
    ensures
        stable_sort_of(r.insert(pos, m), s.push(m)),
{
    let r2 = r.insert(pos, m);
    r.insert_ensures(pos, m);
    assert forall|i: int, j: int| 0 <= i < j < r2.len() implies key_le(
        #[trigger] r2[i],
        #[trigger] r2[j],
    ) by {
        if j < pos {
            assert(r2[i] == r[i] && r2[j] == r[j]);
        } else if j == pos {
            assert(r2[i] == r[i]);
        } else if i < pos {
            assert(r2[i] == r[i] && r2[j] == r[j - 1]);
            assert(key_le(r[i], r[j - 1]));
        } else if i == pos {
            assert(r2[j] == r[j - 1]);
            assert(!key_le(r[j - 1], m));
        } else {
            assert(r2[i] == r[i - 1] && r2[j] == r[j - 1]);
            assert(key_le(r[i - 1], r[j - 1]));
        }
    }
    let a = r.subrange(0, pos);
    let b = r.subrange(pos, r.len() as int);
    assert(r =~= a + b);
    assert(r2 == a.push(m) + b);
    assert forall|p: bool, x: i16| #[trigger] r2.filter(same_key(p, x)) == s.push(m).filter(
        same_key(p, x),
    ) by {
        let f = same_key(p, x);
        Seq::filter_distributes_over_add(a.push(m), b, f);
        Seq::filter_distributes_over_add(a, b, f);
        a.lemma_filter_push(m, f);
        s.lemma_filter_push(m, f);
        assert(r.filter(f) == s.filter(f));
        if f(m) {
            assert forall|i: int| 0 <= i < b.len() implies !f(#[trigger] b[i]) by {
                assert(b[i] == r[pos + i]);
                assert(!key_le(r[pos + i], m));
            }
            b.lemma_all_neg_filter_empty(f);
            assert(b.filter(f) =~= Seq::<Monitor>::empty());
            assert(a.filter(f) + b.filter(f) =~= a.filter(f));
            assert(a.filter(f).push(m) + b.filter(f) =~= a.filter(f).push(m));
        }
    }
}

/// The monitors of a prefix of the reports are a prefix of all the monitors.
proof fn lemma_detected_prefix(rs: Seq<OutputReport>, primary: u32, n: int)
    requires
        0 <= n <= rs.len(),
    ensures
        detected(rs.take(n), primary).len() <= detected(rs, primary).len(),
        detected(rs, primary).take(detected(rs.take(n), primary).len() as int) == detected(
            rs.take(n),
            primary,
        ),
    decreases rs.len() - n,
{
    if n == rs.len() {
        assert(rs.take(n) =~= rs);
        assert(detected(rs, primary).take(detected(rs, primary).len() as int) =~= detected(
            rs,
            primary,
        ));
    } else {
        lemma_detected_prefix(rs, primary, n + 1);
        lemma_detected_step(rs, primary, n);
        let d = detected(rs.take(n), primary);
        let d1 = detected(rs.take(n + 1), primary);
        let all = detected(rs, primary);
        assert(all.take(d.len() as int) =~= all.take(d1.len() as int).take(d.len() as int));
        assert(d1.take(d.len() as int) =~= d);
    }
}

/// One step of `detected`.
proof fn lemma_detected_step(rs: Seq<OutputReport>, primary: u32, i: int)
    requires
        0 <= i < rs.len(),
    ensures
        detected(rs.take(i + 1), primary) == match monitor_of(rs[i], primary) {
            Some(m) => detected(rs.take(i), primary).push(m),
            None => detected(rs.take(i), primary),
        },
{
    assert(rs.take(i + 1).drop_last() =~= rs.take(i));
    assert(rs.take(i + 1).last() == rs[i]);
}

impl MonitorConfig {
    /// Builds the monitor configuration from the reports of all outputs and
    /// the primary output: the monitors of the outputs that display something,
    /// in monitor order (primary first, then left to right, otherwise in
    /// report order), and the extent of the virtual screen, each edge taken
    /// modulo 2^16.
    pub fn from_outputs(outputs: Vec<OutputReport>, primary: u32) -> (c: Self)
        requires
            edges_fit(detected(outputs@, primary)),
        ensures
            stable_sort_of(c.monitors@, detected(outputs@, primary)),
            c.total_width == max_right(detected(outputs@, primary)) as u16,
            c.total_height == max_bottom(detected(outputs@, primary)) as u16,
            extent_reaches(detected(outputs@, primary), c.total_width, c.total_height),
    {
        let ghost all = detected(outputs@, primary);
        let mut monitors: Vec<Monitor> = Vec::new();
        let mut max_w: u32 = 0;
        let mut max_h: u32 = 0;
        let mut i: usize = 0;
        assert(outputs@.take(0) =~= Seq::<OutputReport>::empty());
        assert(monitors@.filter(same_key(false, 0)) == Seq::<Monitor>::empty().filter(
            same_key(false, 0),
        ));
        while i < outputs.len()
            invariant
                i <= outputs@.len(),
                all == detected(outputs@, primary),
                edges_fit(all),
                stable_sort_of(monitors@, detected(outputs@.take(i as int), primary)),
                max_w == max_right(detected(outputs@.take(i as int), primary)),
                max_h == max_bottom(detected(outputs@.take(i as int), primary)),
            decreases outputs@.len() - i,
        {
            let ghost before = detected(outputs@.take(i as int), primary);
            proof {
                lemma_detected_step(outputs@, primary, i as int);
            }
            let r = &outputs[i];
            if r.connected && r.crtc != 0 {
                match r.geometry {
                    Some(g) => {
                        if g.mode != 0 {
                            let m = Monitor {
                                name: r.name.clone(),
                                x: g.x,
                                y: g.y,
                                width: g.width,
                                height: g.height,
                                primary: r.output == primary,
                            };
                            proof {
                                assert(m == monitor_of(outputs@[i as int], primary)->0);
                                lemma_detected_prefix(outputs@, primary, i as int + 1);
                                lemma_prefix_fits(all, before, m);
                            }
                            let right: u32 = m.x as u32 + m.width as u32;
                            let bottom: u32 = m.y as u32 + m.height as u32;
                            if right > max_w {
                                max_w = right;
                            }
                            if bottom > max_h {
                                max_h = bottom;
                            }
                            let mut pos: usize = 0;
                            while pos < monitors.len() && key_le_exec(&monitors[pos], &m)
                                invariant
                                    pos <= monitors@.len(),
                                    forall|k: int| 0 <= k < pos ==> key_le(#[trigger] monitors@[k], m),
                                decreases monitors@.len() - pos,
                            {
                                pos = pos + 1;
                            }
                            proof {
                                assert forall|k: int| pos <= k < monitors@.len() implies !key_le(
                                    #[trigger] monitors@[k],
                                    m,
                                ) by {
                                    if k > pos {
                                        assert(key_le(monitors@[pos as int], monitors@[k]));
                                    }
                                }
                                lemma_insert_sorted(monitors@, before, m, pos as int);
                                assert(before.push(m).drop_last() =~= before);
                            }
                            monitors.insert(pos, m);
                        }
                    },
                    None => {},
                }
            }
            i = i + 1;
        }
        assert(outputs@.take(i as int) =~= outputs@);
        proof {
            law_extent_is_largest_edge(all);
        }
        MonitorConfig { monitors, total_width: max_w as u16, total_height: max_h as u16 }
    }

    /// The primary monitor, or the first monitor when none is primary.
    pub fn primary(&self) -> (r: Option<&Monitor>)
        ensures
            match r {
                None => self.monitors@.len() == 0,
                Some(m) => exists|i: int| is_chosen(self.monitors@, i) && *m == self.monitors@[i],
            },
    {
        let mut i: usize = 0;
        while i < self.monitors.len()
            invariant
                i <= self.monitors@.len(),
                forall|j: int| 0 <= j < i ==> !(#[trigger] self.monitors@[j]).primary,
            decreases self.monitors@.len() - i,
        {
            if self.monitors[i].primary {
                return Some(&self.monitors[i]);
            }
            i = i + 1;
        }
        if self.monitors.len() == 0 {
            None
        } else {
            Some(&self.monitors[0])
        }
    }

    /// Whether there is at most one monitor.
    pub fn is_single_monitor(&self) -> (r: bool)
        ensures
            r == (self.monitors@.len() <= 1),
    {
        self.monitors.len() <= 1
    }
}

/// Whether `a` comes no later than `b` in monitor order.
fn key_le_exec(a: &Monitor, b: &Monitor) -> (r: bool)
    ensures
        r == key_le(*a, *b),
{
    (a.primary && !b.primary) || (a.primary == b.primary && a.x <= b.x)
}

/// The next detected monitor's edges fit, as all detected monitors' do.
proof fn lemma_prefix_fits(all: Seq<Monitor>, before: Seq<Monitor>, m: Monitor)
    requires
        edges_fit(all),
        before.len() < all.len(),
        all.take((before.len() + 1) as int) == before.push(m),
    ensures
        right_edge(m) <= u32::MAX,
        bottom_edge(m) <= u32::MAX,
{
    assert(all[before.len() as int] == all.take((before.len() + 1) as int)[before.len() as int]);
}

/// Whether an output is worth asking the CRTC of.
pub fn wants_crtc(connected: bool, crtc: u32) -> (r: bool)
    ensures
        r == shows_something(connected, crtc),
{
    connected && crtc != 0
}

/// Whether the edges of the monitors the reports describe fit in a `u32`,
/// as `MonitorConfig::from_outputs` requires.
pub fn edges_fit_for(outputs: &Vec<OutputReport>, primary: u32) -> (r: bool)
    ensures
        r == edges_fit(detected(outputs@, primary)),
{
    let mut i: usize = 0;
    assert(outputs@.take(0) =~= Seq::<OutputReport>::empty());
    while i < outputs.len()
        invariant
            i <= outputs@.len(),
            edges_fit(detected(outputs@.take(i as int), primary)),
        decreases outputs@.len() - i,
    {
        proof {
            lemma_detected_step(outputs@, primary, i as int);
        }
        let r = &outputs[i];
        if r.connected && r.crtc != 0 {
            match r.geometry {
                Some(g) => {
                    if g.mode != 0 {
                        let right: u64 = g.x as u32 as u64 + g.width as u64;
                        let bottom: u64 = g.y as u32 as u64 + g.height as u64;
                        if right > u32::MAX as u64 || bottom > u32::MAX as u64 {
                            proof {
                                let d = detected(outputs@.take(i as int + 1), primary);
                                let m = d.last();
                                assert(m == d[d.len() - 1]);
                                lemma_not_fit_grows(outputs@, primary, i as int + 1);
                            }
                            return false;
                        }
                    }
                },
                None => {},
            }
        }
        i = i + 1;
    }
    assert(outputs@.take(i as int) =~= outputs@);
    true
}

/// A monitor whose edges do not fit stays among the detected monitors of
/// every longer prefix of the reports.
proof fn lemma_not_fit_grows(rs: Seq<OutputReport>, primary: u32, n: int)
    requires
        0 <= n <= rs.len(),
        !edges_fit(detected(rs.take(n), primary)),
    ensures
        !edges_fit(detected(rs, primary)),
    decreases rs.len() - n,
{
    if n < rs.len() {
        lemma_detected_step(rs, primary, n);
        let d = detected(rs.take(n), primary);
        let k = choose|k: int|
            0 <= k < d.len() && !(right_edge(#[trigger] d[k]) <= u32::MAX && bottom_edge(d[k])
                <= u32::MAX);
        let d2 = detected(rs.take(n + 1), primary);
        assert(d2[k] == d[k]);
        lemma_not_fit_grows(rs, primary, n + 1);
    } else {
        assert(rs.take(n) =~= rs);
    }
}

/// The virtual screen of `width` by `height` reaches the far edges of the
/// monitors `s`, each edge being the position reinterpreted as unsigned plus
/// the size: with no monitor it is empty; otherwise some monitor's right edge
/// is its width and some monitor's bottom edge is its height, modulo 2^16;
/// and when every edge fits in 16 bits, no monitor reaches past it.
pub open spec fn extent_reaches(s: Seq<Monitor>, width: u16, height: u16) -> bool {
    &&& s.len() == 0 ==> width == 0 && height == 0
    &&& s.len() > 0 ==> exists|i: int|
        0 <= i < s.len() && width == (((#[trigger] s[i]).x as u32) + (s[i].width as u32)) as u16
    &&& s.len() > 0 ==> exists|i: int|
        0 <= i < s.len() && height == (((#[trigger] s[i]).y as u32) + (s[i].height as u32)) as u16
    &&& (forall|i: int|
        0 <= i < s.len() ==> ((#[trigger] s[i]).x as u32) + (s[i].width as u32) <= 0xffff)
        ==> forall|i: int|
        0 <= i < s.len() ==> ((#[trigger] s[i]).x as u32) + (s[i].width as u32) <= width
    &&& (forall|i: int|
        0 <= i < s.len() ==> ((#[trigger] s[i]).y as u32) + (s[i].height as u32) <= 0xffff)
        ==> forall|i: int|
        0 <= i < s.len() ==> ((#[trigger] s[i]).y as u32) + (s[i].height as u32) <= height
}

/// The extent of the virtual screen is the largest right edge and the
/// largest bottom edge of the monitors: every monitor's `x` (as unsigned)
/// plus width is at most the first and every monitor's `y` (as unsigned) plus
/// height at most the second, each is reached by some monitor, and both are
/// zero without monitors.
pub proof fn law_extent_is_largest_edge(s: Seq<Monitor>)
    ensures
        forall|i: int|
            0 <= i < s.len() ==> ((#[trigger] s[i]).x as u32) + (s[i].width as u32) <= max_right(
                s,
            ),
        forall|i: int|
            0 <= i < s.len() ==> ((#[trigger] s[i]).y as u32) + (s[i].height as u32)
                <= max_bottom(s),
        s.len() > 0 ==> exists|i: int|
            0 <= i < s.len() && max_right(s) == ((#[trigger] s[i]).x as u32) + (s[i].width as u32),
        s.len() > 0 ==> exists|i: int|
            0 <= i < s.len() && max_bottom(s) == ((#[trigger] s[i]).y as u32) + (
            s[i].height as u32),
        s.len() == 0 ==> max_right(s) == 0 && max_bottom(s) == 0,
        extent_reaches(s, max_right(s) as u16, max_bottom(s) as u16),
    decreases s.len(),
{
    if s.len() > 0 {
        let t = s.drop_last();
        law_extent_is_largest_edge(t);
        let n = s.len() - 1;
        assert forall|i: int| 0 <= i < s.len() implies ((#[trigger] s[i]).x as u32) + (
        s[i].width as u32) <= max_right(s) && (s[i].y as u32) + (s[i].height as u32) <= max_bottom(
            s,
        ) by {
            if i < n {
                assert(s[i] == t[i]);
            }
        }
        if max_right(s) != max_right(t) {
            assert(max_right(s) == (s[n].x as u32) + (s[n].width as u32));
        } else if t.len() > 0 {
            let j = choose|j: int|
                0 <= j < t.len() && max_right(t) == ((#[trigger] t[j]).x as u32) + (
                t[j].width as u32);
            assert(s[j] == t[j]);
        } else {
            assert(max_right(s) == (s[n].x as u32) + (s[n].width as u32));
        }
        if max_bottom(s) != max_bottom(t) {
            assert(max_bottom(s) == (s[n].y as u32) + (s[n].height as u32));
        } else if t.len() > 0 {
            let j = choose|j: int|
                0 <= j < t.len() && max_bottom(t) == ((#[trigger] t[j]).y as u32) + (
                t[j].height as u32);
            assert(s[j] == t[j]);
        } else {
            assert(max_bottom(s) == (s[n].y as u32) + (s[n].height as u32));
        }
    }
}

/// When some monitor is primary, monitor order puts a primary monitor first,
/// and that is the one `MonitorConfig::primary` returns.
pub proof fn law_primary_sorted_first(s: Seq<Monitor>)
    requires
        sorted_by_key(s),
        exists|j: int| 0 <= j < s.len() && #[trigger] s[j].primary,
    ensures
        s[0].primary,
        is_chosen(s, 0),
{
    let j = choose|j: int| 0 <= j < s.len() && #[trigger] s[j].primary;
    if j > 0 {
        assert(key_le(s[0], s[j]));
    }
}

} // verus!
