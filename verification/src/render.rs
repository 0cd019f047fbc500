//! When the client recomposes and flushes its screen: the cached sidebar shell, the blit
//! encoder's diff baseline, the coalescing of repaint requests to one per frame budget, and the
//! frame-timing window.

use vstd::prelude::*;
use crate::protocol::ServerId;
use crate::schedule::{CLIENT_60FPS_FRAME_BUDGET, elapsed};
use crate::supervisor::{AgentGroup, AgentRow};
use crate::text::str_is;

verus! {

/// Span of one frame-timing window, in microseconds.
pub const FRAME_STATS_WINDOW: u64 = 1_000_000;

/// The client's render cadence state.
#[derive(Debug, Clone, Copy, PartialEq, Eq)]
pub struct RenderCadence {
    /// Host size the cached sidebar shell was laid out for, if one is cached.
    pub shell_cache: Option<(u16, u16)>,
    /// The blit encoder holds a committed frame to diff the next one against.
    pub blit_baseline: bool,
    /// A hover repaint is deferred to the next frame boundary.
    pub pending_hover_render: bool,
    /// A full repaint is deferred to the next frame boundary.
    pub pending_full_render: bool,
    /// When the last composited frame was flushed (microseconds on the loop clock).
    pub last_composited_render_at: u64,
}

impl RenderCadence {
    /// Nothing cached or pending; the last frame counts as flushed at `now`.
    pub fn new(now: u64) -> (r: RenderCadence)
        ensures
            r == (RenderCadence {
                shell_cache: None,
                blit_baseline: false,
                pending_hover_render: false,
                pending_full_render: false,
                last_composited_render_at: now,
            }),
    {
        RenderCadence {
            shell_cache: None,
            blit_baseline: false,
            pending_hover_render: false,
            pending_full_render: false,
            last_composited_render_at: now,
        }
    }

    /// A model or view change: drop the cached shell and the blit baseline, so the next frame
    /// rebuilds the sidebar and repaints the whole screen.
    pub fn request_full_redraw(&mut self)
        ensures
            *final(self) == (RenderCadence { shell_cache: None, blit_baseline: false, ..*old(self) }),
    {
        self.shell_cache = None;
        self.blit_baseline = false;
    }

    /// A hover or menu-selection change: only mark a repaint pending; the shell and the blit
    /// baseline stay.
    pub fn request_hover_redraw(&mut self)
        ensures
            *final(self) == (RenderCadence { pending_hover_render: true, ..*old(self) }),
    {
        self.pending_hover_render = true;
    }

    /// Ask for a full render at `now`: true when a frame budget has passed since the last flushed
    /// frame (render now); otherwise the render is deferred to the frame boundary.
    pub fn request_composited_render(&mut self, now: u64) -> (r: bool)
        ensures
            r == (elapsed(now, old(self).last_composited_render_at) >= CLIENT_60FPS_FRAME_BUDGET),
            r ==> *final(self) == *old(self),
            !r ==> *final(self) == (RenderCadence { pending_full_render: true, ..*old(self) }),
    {
        if now >= self.last_composited_render_at && now - self.last_composited_render_at >= CLIENT_60FPS_FRAME_BUDGET {
            true
        } else {
            self.pending_full_render = true;
            false
        }
    }

    /// Make sure a shell for `host_size` is cached: rebuilt when forced or when the cached one
    /// was laid out for another size; true when it was rebuilt.
    pub fn ensure_shell_cache(&mut self, host_size: (u16, u16), rebuild: bool) -> (r: bool)
        ensures
            r == (rebuild || old(self).shell_cache != Some(host_size)),
            *final(self) == (RenderCadence { shell_cache: Some(host_size), ..*old(self) }),
    {
        let fresh = rebuild || match self.shell_cache {
            Some(dims) => !(dims.0 == host_size.0 && dims.1 == host_size.1),
            None => true,
        };
        self.shell_cache = Some(host_size);
        fresh
    }

    /// A composited frame was flushed at `now`: it reflects every pending hover and model change,
    /// and becomes the blit baseline.
    pub fn frame_flushed(&mut self, now: u64)
        ensures
            *final(self) == (RenderCadence {
                blit_baseline: true,
                pending_hover_render: false,
                pending_full_render: false,
                last_composited_render_at: now,
                ..*old(self)
            }),
    {
        self.blit_baseline = true;
        self.pending_hover_render = false;
        self.pending_full_render = false;
        self.last_composited_render_at = now;
    }
}

/// What the housekeeping tick renders.
#[derive(Debug, Clone, Copy, PartialEq, Eq)]
pub enum TimerRender {
    /// Nothing is deferred.
    Nothing,
    /// A full rebuild of the sidebar and the frame.
    Full,
    /// A recompose from the cached shell with the current hover.
    Hover,
}

impl RenderCadence {
    /// The housekeeping tick's render: an outcome line that just expired forces a full repaint;
    /// a deferred full render wins over a deferred hover repaint; the flag of what is rendered is
    /// cleared before rendering.
    pub fn take_timer_render(&mut self, outcomes_expired: bool) -> (r: TimerRender)
        ensures
            ({
                let c = if outcomes_expired {
                    RenderCadence { shell_cache: None, blit_baseline: false, pending_full_render: true, ..*old(self) }
                } else {
                    *old(self)
                };
                if c.pending_full_render {
                    r == TimerRender::Full && *final(self) == (RenderCadence { pending_full_render: false, pending_hover_render: false, ..c })
                } else if c.pending_hover_render {
                    r == TimerRender::Hover && *final(self) == (RenderCadence { pending_hover_render: false, ..c })
                } else {
                    r == TimerRender::Nothing && *final(self) == c
                }
            }),
    {
        if outcomes_expired {
            self.request_full_redraw();
            self.pending_full_render = true;
        }
        if self.pending_full_render {
            self.pending_full_render = false;
            self.pending_hover_render = false;
            TimerRender::Full
        } else if self.pending_hover_render {
            self.pending_hover_render = false;
            TimerRender::Hover
        } else {
            TimerRender::Nothing
        }
    }
}

/// Whether a frame that took `render_micros` missed the 60fps budget.
pub fn missed_sixty_fps_budget(render_micros: u64) -> (r: bool)
    ensures
        r == (render_micros > CLIENT_60FPS_FRAME_BUDGET),
{
    render_micros > CLIENT_60FPS_FRAME_BUDGET
}

/// One closed frame-timing window: its frames, span, summed frame and compose time, and how
/// many frames rebuilt the sidebar shell (times in microseconds).
#[derive(Debug, Clone, Copy, PartialEq, Eq)]
pub struct FrameWindowSummary {
    pub frames: u32,
    pub elapsed: u64,
    pub total: u64,
    pub compose: u64,
    pub rebuilds: u32,
}

/// The frame-timing window being filled.
#[derive(Debug, Clone, Copy, PartialEq, Eq)]
pub struct FrameWindow {
    pub started_at: Option<u64>,
    pub frames: u32,
    pub total: u64,
    pub compose: u64,
    pub rebuilds: u32,
}

impl FrameWindow {
    /// An empty window that has not started.
    pub fn new() -> (r: FrameWindow)
        ensures
            r == (FrameWindow { started_at: None, frames: 0, total: 0, compose: 0, rebuilds: 0 }),
    {
        FrameWindow { started_at: None, frames: 0, total: 0, compose: 0, rebuilds: 0 }
    }

    /// Fold one frame (its total and compose time, and whether it rebuilt the shell) into the
    /// window, which starts at its first frame. Once the window spans `FRAME_STATS_WINDOW` its
    /// summary is returned and a new window starts at `now`; mid-window nothing is returned.
    pub fn accumulate_window(&mut self, now: u64, total: u64, compose: u64, shell_rebuilt: bool) -> (r: Option<FrameWindowSummary>)
        requires
            old(self).frames < u32::MAX,
            old(self).rebuilds < u32::MAX,
            old(self).total + total <= u64::MAX,
            old(self).compose + compose <= u64::MAX,
        ensures
            ({
                let started = match old(self).started_at {
                    Some(s) => s,
                    None => now,
                };
                let frames = (old(self).frames + 1) as u32;
                let sum_total = (old(self).total + total) as u64;
                let sum_compose = (old(self).compose + compose) as u64;
                let rebuilds = (if shell_rebuilt { old(self).rebuilds + 1 } else { old(self).rebuilds as int }) as u32;
                if elapsed(now, started) < FRAME_STATS_WINDOW {
                    &&& r is None
                    &&& *final(self) == (FrameWindow {
                            started_at: Some(started),
                            frames,
                            total: sum_total,
                            compose: sum_compose,
                            rebuilds,
                        })
                } else {
                    &&& r == Some(FrameWindowSummary {
                            frames,
                            elapsed: elapsed(now, started) as u64,
                            total: sum_total,
                            compose: sum_compose,
                            rebuilds,
                        })
                    &&& *final(self) == (FrameWindow { started_at: Some(now), frames: 0, total: 0, compose: 0, rebuilds: 0 })
                }
            }),
    {
        let started = match self.started_at {
            Some(s) => s,
            None => now,
        };
        self.started_at = Some(started);
        self.frames = self.frames + 1;
        self.total = self.total + total;
        self.compose = self.compose + compose;
        if shell_rebuilt {
            self.rebuilds = self.rebuilds + 1;
        }
        let span: u64 = if now >= started { now - started } else { 0 };
        if span < FRAME_STATS_WINDOW {
            return None;
        }
        let summary = FrameWindowSummary {
            frames: self.frames,
            elapsed: span,
            total: self.total,
            compose: self.compose,
            rebuilds: self.rebuilds,
        };
        self.started_at = Some(now);
        self.frames = 0;
        self.total = 0;
        self.compose = 0;
        self.rebuilds = 0;
        Some(summary)
    }
}

/// An agent of the sidebar: its server and its id.
pub type AgentKey = (Option<Seq<char>>, Seq<char>);

/// The agents of all groups, each with its server, in sidebar order.
pub open spec fn agent_entries(groups: Seq<AgentGroup>) -> Seq<(ServerId, AgentRow)>
    decreases groups.len(),
{
    if groups.len() == 0 {
        Seq::empty()
    } else {
        let g = groups.last();
        agent_entries(groups.drop_last()) + g.agents@.map_values(|a: AgentRow| (g.server_id, a))
    }
}

/// The agents of `entries` whose status is "working".
pub open spec fn working_agents(entries: Seq<(ServerId, AgentRow)>) -> Set<AgentKey> {
    Set::new(|k: AgentKey| exists|i: int| 0 <= i < entries.len() && (#[trigger] entries[i]).0@ == k.0
        && entries[i].1.agent_id@ == k.1 && entries[i].1.status@ == "working"@)
}

/// When each working agent started working, for the sidebar's working timers.
#[derive(Debug, Clone)]
pub struct WorkingSince {
    entries: Vec<(ServerId, String, u64)>,
}

impl View for WorkingSince {
    type V = Map<AgentKey, u64>;

    closed spec fn view(&self) -> Map<AgentKey, u64> {
        Map::new(
            |k: AgentKey| exists|i: int| 0 <= i < self.entries@.len() && (#[trigger] self.entries@[i]).0@ == k.0
                && self.entries@[i].1@ == k.1,
            |k: AgentKey| self.entries@[choose|i: int| 0 <= i < self.entries@.len() && (#[trigger] self.entries@[i]).0@ == k.0
                && self.entries@[i].1@ == k.1].2,
        )
    }
}

/// The entry at `i` holds agent `k`.
pub open spec fn entry_is(e: (ServerId, String, u64), k: AgentKey) -> bool {
    e.0@ == k.0 && e.1@ == k.1
}

/// No agent is held twice.
pub open spec fn distinct_agents(e: Seq<(ServerId, String, u64)>) -> bool {
    forall|i: int, j: int| 0 <= i < e.len() && 0 <= j < e.len() && i != j
        ==> !((#[trigger] e[i]).0@ == (#[trigger] e[j]).0@ && e[i].1@ == e[j].1@)
}

impl WorkingSince {
    /// No agent is held twice.
    pub closed spec fn wf(&self) -> bool {
        distinct_agents(self.entries@)
    }

    proof fn lemma_entry(&self, i: int)
        requires
            self.wf(),
            0 <= i < self.entries@.len(),
        ensures
            self@.contains_key((self.entries@[i].0@, self.entries@[i].1@)),
            self@[(self.entries@[i].0@, self.entries@[i].1@)] == self.entries@[i].2,
    {
        let k = (self.entries@[i].0@, self.entries@[i].1@);
        assert(self@.contains_key(k));
        let j = choose|j: int| 0 <= j < self.entries@.len() && (#[trigger] self.entries@[j]).0@ == k.0
            && self.entries@[j].1@ == k.1;
        assert(j == i);
    }

    /// No timers.
    pub fn new() -> (r: WorkingSince)
        ensures
            r.wf(),
            r@ == Map::<AgentKey, u64>::empty(),
    {
        let r = WorkingSince { entries: Vec::new() };
        assert(r@ =~= Map::<AgentKey, u64>::empty());
        r
    }

    fn position(&self, server_id: &ServerId, agent_id: &str) -> (r: Option<usize>)
        ensures
            match r {
                Some(i) => i < self.entries@.len() && entry_is(self.entries@[i as int], (server_id@, agent_id@)),
                None => !self@.contains_key((server_id@, agent_id@)),
            },
    {
        let mut i: usize = 0;
        while i < self.entries.len()
            invariant
                i <= self.entries@.len(),
                forall|j: int| 0 <= j < i ==> !entry_is(#[trigger] self.entries@[j], (server_id@, agent_id@)),
            decreases self.entries@.len() - i,
        {
            if self.entries[i].0.same_as(server_id) && str_is(self.entries[i].1.as_str(), agent_id) {
                return Some(i);
            }
            i = i + 1;
        }
        None
    }

    /// When agent `agent_id` of `server_id` started working, if it is timed.
    pub fn working_since_at(&self, server_id: &ServerId, agent_id: &str) -> (r: Option<u64>)
        requires
            self.wf(),
        ensures
            r == (if self@.contains_key((server_id@, agent_id@)) { Some(self@[(server_id@, agent_id@)]) } else { None::<u64> }),
    {
        match self.position(server_id, agent_id) {
            Some(i) => {
                proof {
                    self.lemma_entry(i as int);
                }
                Some(self.entries[i].2)
            },
            None => None,
        }
    }

    /// How many agents are timed.
    pub fn working_since_len(&self) -> (r: usize)
        requires
            self.wf(),
        ensures
            r == self@.dom().len(),
    {
        proof {
            self.lemma_len();
        }
        self.entries.len()
    }

    proof fn lemma_len(&self)
        requires
            self.wf(),
        ensures
            self@.dom().len() == self.entries@.len(),
            self@.dom().finite(),
    {
        let keys = self.entries@.map_values(|e: (ServerId, String, u64)| (e.0@, e.1@));
        assert(keys.no_duplicates()) by {
            assert forall|a: int, b: int| 0 <= a < keys.len() && 0 <= b < keys.len() && a != b implies keys[a] != keys[b] by {
                assert(!(self.entries@[a].0@ == self.entries@[b].0@ && self.entries@[a].1@ == self.entries@[b].1@));
            }
        }
        assert(self@.dom() =~= keys.to_set()) by {
            assert forall|k: AgentKey| self@.dom().contains(k) <==> keys.to_set().contains(k) by {
                if self@.dom().contains(k) {
                    let i = choose|i: int| 0 <= i < self.entries@.len() && (#[trigger] self.entries@[i]).0@ == k.0
                        && self.entries@[i].1@ == k.1;
                    assert(keys[i] == k);
                }
                if keys.to_set().contains(k) {
                    assert(keys.contains(k));
                    let i = choose|i: int| 0 <= i < keys.len() && keys[i] == k;
                    assert(entry_is(self.entries@[i], k));
                }
            }
        }
        keys.unique_seq_to_set();
    }
}

/// The agents of all groups with their servers, in sidebar order.
pub fn collect_agent_entries(groups: &Vec<AgentGroup>) -> (r: Vec<(ServerId, AgentRow)>)
    ensures
        r@ == agent_entries(groups@),
{
    let mut r: Vec<(ServerId, AgentRow)> = Vec::new();
    let mut i: usize = 0;
    while i < groups.len()
        invariant
            i <= groups@.len(),
            r@ == agent_entries(groups@.take(i as int)),
        decreases groups@.len() - i,
    {
        let group = &groups[i];
        proof {
            assert(groups@.take(i + 1).drop_last() == groups@.take(i as int));
            assert(groups@.take(i + 1).last() == groups@[i as int]);
        }
        let ghost before = r@;
        let ghost mapped = group.agents@.map_values(|a: AgentRow| (group.server_id, a));
        let mut j: usize = 0;
        while j < group.agents.len()
            invariant
                j <= group.agents@.len(),
                r@ == before + mapped.take(j as int),
                mapped == group.agents@.map_values(|a: AgentRow| (group.server_id, a)),
            decreases group.agents@.len() - j,
        {
            let a = &group.agents[j];
            r.push((group.server_id.duplicate(), AgentRow {
                agent_id: a.agent_id.clone(),
                status: a.status.clone(),
                focused: a.focused,
            }));
            proof {
                assert(mapped.take(j + 1) == mapped.take(j as int).push(mapped[j as int]));
            }
            j = j + 1;
        }
        proof {
            assert(mapped.take(mapped.len() as int) == mapped);
        }
        i = i + 1;
    }
    proof {
        assert(groups@.take(groups@.len() as int) == groups@);
    }
    r
}

/// The timers after the loop's upkeep at `now`: every working agent is timed, keeping the start
/// it already had (new ones start at `now`), and agents no longer working are dropped.
pub open spec fn seeded_timers(old_timers: Map<AgentKey, u64>, working: Set<AgentKey>, now: u64) -> Map<AgentKey, u64> {
    Map::new(
        |k: AgentKey| working.contains(k),
        |k: AgentKey| if old_timers.contains_key(k) { old_timers[k] } else { now },
    )
}

/// Upkeep of the working timers before a frame is composed (see `seeded_timers`), for the
/// agents the groups list.
pub fn prune_and_seed_working_since(timers: &mut WorkingSince, groups: &Vec<AgentGroup>, now: u64)
    requires
        old(timers).wf(),
    ensures
        final(timers).wf(),
        final(timers)@ == seeded_timers(old(timers)@, working_agents(agent_entries(groups@)), now),
{
    let entries = collect_agent_entries(groups);
    let ghost target = seeded_timers(timers@, working_agents(entries@), now);
    let mut next: Vec<(ServerId, String, u64)> = Vec::new();
    let mut i: usize = 0;
    while i < entries.len()
        invariant
            i <= entries@.len(),
            timers.wf(),
            *timers == *old(timers),
            distinct_agents(next@),
            forall|a: int| 0 <= a < next@.len() ==> working_agents(entries@.take(i as int)).contains(
                ((#[trigger] next@[a]).0@, next@[a].1@)) && next@[a].2 == target[(next@[a].0@, next@[a].1@)],
            forall|k: AgentKey| #[trigger] working_agents(entries@.take(i as int)).contains(k)
                ==> exists|a: int| 0 <= a < next@.len() && entry_is(#[trigger] next@[a], k),
            target == seeded_timers(timers@, working_agents(entries@), now),
        decreases entries@.len() - i,
    {
        let server_id = &entries[i].0;
        let agent = &entries[i].1;
        let ghost k: AgentKey = (server_id@, agent.agent_id@);
        let ghost w_prev = working_agents(entries@.take(i as int));
        let ghost w_next = working_agents(entries@.take(i + 1));
        proof {
            assert forall|kk: AgentKey| #[trigger] w_next.contains(kk) <==> (w_prev.contains(kk)
                || (kk == k && entries@[i as int].1.status@ == "working"@)) by {
                if w_next.contains(kk) {
                    let a = choose|a: int| 0 <= a < entries@.take(i + 1).len() && (#[trigger] entries@.take(i + 1)[a]).0@ == kk.0
                        && entries@.take(i + 1)[a].1.agent_id@ == kk.1 && entries@.take(i + 1)[a].1.status@ == "working"@;
                    if a < i {
                        assert(entries@.take(i as int)[a] == entries@.take(i + 1)[a]);
                    }
                }
                if w_prev.contains(kk) {
                    let a = choose|a: int| 0 <= a < entries@.take(i as int).len() && (#[trigger] entries@.take(i as int)[a]).0@ == kk.0
                        && entries@.take(i as int)[a].1.agent_id@ == kk.1 && entries@.take(i as int)[a].1.status@ == "working"@;
                    assert(entries@.take(i + 1)[a] == entries@.take(i as int)[a]);
                }
                if kk == k && entries@[i as int].1.status@ == "working"@ {
                    assert(entries@.take(i + 1)[i as int] == entries@[i as int]);
                }
            }
        }
        if str_is(agent.status.as_str(), "working") {
            let mut seen = false;
            let mut j: usize = 0;
            while j < next.len()
                invariant
                    j <= next@.len(),
                    k == (server_id@, agent.agent_id@),
                    seen == exists|a: int| 0 <= a < j && entry_is(#[trigger] next@[a], k),
                decreases next@.len() - j,
            {
                let same_server = next[j].0.same_as(server_id);
                let same_agent = str_is(next[j].1.as_str(), agent.agent_id.as_str());
                let hit = same_server && same_agent;
                proof {
                    assert(hit == entry_is(next@[j as int], k));
                }
                if hit {
                    seen = true;
                }
                j = j + 1;
            }
            if !seen {
                let since = match timers.working_since_at(server_id, agent.agent_id.as_str()) {
                    Some(t) => t,
                    None => now,
                };
                proof {
                    assert(w_next.contains(k));
                    assert(working_agents(entries@).contains(k)) by {
                        assert(entries@[i as int] == entries@.take(i + 1)[i as int]);
                    }
                }
                let ghost before = next@;
                next.push((server_id.duplicate(), agent.agent_id.clone(), since));
                proof {
                    assert forall|a: int, b: int| 0 <= a < next@.len() && 0 <= b < next@.len() && a != b
                        implies !((#[trigger] next@[a]).0@ == (#[trigger] next@[b]).0@ && next@[a].1@ == next@[b].1@) by {
                        if a < before.len() && b < before.len() {
                            assert(before[a] == next@[a] && before[b] == next@[b]);
                        } else if a < before.len() {
                            assert(before[a] == next@[a]);
                            assert(!entry_is(before[a], k));
                        } else if b < before.len() {
                            assert(before[b] == next@[b]);
                            assert(!entry_is(before[b], k));
                        }
                    }
                    assert forall|kk: AgentKey| #[trigger] w_next.contains(kk)
                        implies exists|a: int| 0 <= a < next@.len() && entry_is(#[trigger] next@[a], kk) by {
                        if kk == k {
                            assert(entry_is(next@[before.len() as int], kk));
                        } else {
                            let a = choose|a: int| 0 <= a < before.len() && entry_is(#[trigger] before[a], kk);
                            assert(next@[a] == before[a]);
                        }
                    }
                    assert forall|a: int| 0 <= a < next@.len() implies w_next.contains(((#[trigger] next@[a]).0@, next@[a].1@))
                        && next@[a].2 == target[(next@[a].0@, next@[a].1@)] by {
                        if a < before.len() {
                            assert(next@[a] == before[a]);
                        }
                    }
                }
            } else {
                proof {
                    assert forall|kk: AgentKey| #[trigger] w_next.contains(kk)
                        implies exists|a: int| 0 <= a < next@.len() && entry_is(#[trigger] next@[a], kk) by {
                        if kk != k {
                            assert(w_prev.contains(kk));
                        }
                    }
                }
            }
        } else {
            proof {
                assert forall|kk: AgentKey| #[trigger] w_next.contains(kk)
                    implies exists|a: int| 0 <= a < next@.len() && entry_is(#[trigger] next@[a], kk) by {
                    assert(w_prev.contains(kk));
                }
            }
        }
        i = i + 1;
    }
    proof {
        assert(entries@.take(entries@.len() as int) == entries@);
    }
    timers.entries = next;
    proof {
        assert forall|k: AgentKey| #[trigger] timers@.contains_key(k) <==> target.contains_key(k) by {
            if timers@.contains_key(k) {
                let a = choose|a: int| 0 <= a < timers.entries@.len() && (#[trigger] timers.entries@[a]).0@ == k.0
                    && timers.entries@[a].1@ == k.1;
                assert(entry_is(timers.entries@[a], k));
            }
            if target.contains_key(k) {
                let a = choose|a: int| 0 <= a < timers.entries@.len() && entry_is(#[trigger] timers.entries@[a], k);
                assert(timers.entries@[a].0@ == k.0 && timers.entries@[a].1@ == k.1);
            }
        }
        assert forall|k: AgentKey| #[trigger] timers@.contains_key(k) implies timers@[k] == target[k] by {
            let a = choose|a: int| 0 <= a < timers.entries@.len() && (#[trigger] timers.entries@[a]).0@ == k.0
                && timers.entries@[a].1@ == k.1;
            timers.lemma_entry(a);
        }
        assert(timers@ =~= target);
    }
}

} // verus!
