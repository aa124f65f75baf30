use vstd::prelude::*;
use bevy::math::Vec3;

verus! {

/// A completed segment: where it starts and ends, and its identifier.
#[derive(Clone, Copy, Debug)]
pub struct DrawableLine {
    pub start: Vec3,
    pub end: Vec3,
    pub id: u32,
}

/// The state of the two-click line gesture.
///
/// The gesture is Idle when `is_drawing` is false and Pending, with
/// `start_point` holding the first click, when it is true. `line_counter`
/// is the identifier that the next completed line will get.
#[derive(Clone, Copy, Debug)]
pub struct LineDrawingState {
    pub is_drawing: bool,
    pub start_point: Option<Vec3>,
    pub line_counter: u32,
    pub is_enabled: bool,
    pub polar_input_mode: bool,
}

/// What a click on the ground plane did to the gesture.
#[derive(Clone, Copy, Debug)]
pub enum ClickOutcome {
    /// The gesture was Idle: the click became the start of a new line.
    Started(Vec3),
    /// The gesture was Pending: the click completed this line.
    Completed(DrawableLine),
    /// The gesture claimed to be Pending without a start point: it was
    /// reset and no line was made.
    Discarded,
}

/// What the line tool does in one frame.
#[derive(Clone, Copy, Debug)]
pub struct LineDrawingStep {
    /// The effect of this frame's click, if the tool handled one.
    pub click: Option<ClickOutcome>,
    /// The start point from which a preview segment is drawn to the cursor.
    pub preview_from: Option<Vec3>,
}

impl LineDrawingState {
    /// Idle, disabled, numbering from zero.
    pub open spec fn initial() -> LineDrawingState {
        LineDrawingState {
            is_drawing: false,
            start_point: None,
            line_counter: 0,
            is_enabled: false,
            polar_input_mode: false,
        }
    }

    /// The gesture is Pending exactly when a start point is held.
    pub open spec fn wf(self) -> bool {
        self.is_drawing <==> self.start_point.is_some()
    }

    /// The same state with the gesture back at Idle.
    pub open spec fn spec_reset_gesture(self) -> LineDrawingState {
        LineDrawingState { is_drawing: false, start_point: None, ..self }
    }

    /// A click that completes a line needs a next identifier.
    pub open spec fn can_click(self) -> bool {
        self.is_drawing && self.start_point.is_some() ==> self.line_counter < u32::MAX
    }

    /// The state after a click at `p`.
    pub open spec fn spec_click(self, p: Vec3) -> LineDrawingState {
        if !self.is_drawing {
            LineDrawingState { is_drawing: true, start_point: Some(p), ..self }
        } else {
            match self.start_point {
                Some(_) => LineDrawingState {
                    line_counter: (self.line_counter + 1) as u32,
                    ..self.spec_reset_gesture()
                },
                None => self.spec_reset_gesture(),
            }
        }
    }

    /// What a click at `p` yields.
    pub open spec fn spec_click_outcome(self, p: Vec3) -> ClickOutcome {
        if !self.is_drawing {
            ClickOutcome::Started(p)
        } else {
            match self.start_point {
                Some(s) => ClickOutcome::Completed(
                    DrawableLine { start: s, end: p, id: self.line_counter },
                ),
                None => ClickOutcome::Discarded,
            }
        }
    }

    /// The state after the tool is switched on or off.
    pub open spec fn spec_toggle(self) -> LineDrawingState {
        if self.is_enabled {
            LineDrawingState { is_enabled: false, ..self.spec_reset_gesture() }
        } else {
            LineDrawingState { is_enabled: true, ..self }
        }
    }

    /// The state after every line is cleared.
    pub open spec fn spec_clear(self) -> LineDrawingState {
        LineDrawingState { line_counter: 0, ..self.spec_reset_gesture() }
    }

    /// The state after `handle_line_events` saw the given events.
    pub open spec fn spec_after_events(self, create: bool, delete: bool) -> LineDrawingState {
        let s = if create {
            LineDrawingState { is_enabled: true, ..self }
        } else {
            self
        };
        if delete {
            s.spec_clear()
        } else {
            s
        }
    }

    pub fn new() -> (r: LineDrawingState)
        ensures
            r == LineDrawingState::initial(),
            r.wf(),
    {
        LineDrawingState {
            is_drawing: false,
            start_point: None,
            line_counter: 0,
            is_enabled: false,
            polar_input_mode: false,
        }
    }

    fn reset_gesture(&mut self)
        ensures
            *final(self) == old(self).spec_reset_gesture(),
    {
        self.is_drawing = false;
        self.start_point = None;
    }

    /// Gives the completed line the next identifier.
    fn create_line(&mut self, start: Vec3, end: Vec3) -> (r: DrawableLine)
        requires
            old(self).line_counter < u32::MAX,
        ensures
            r == (DrawableLine { start, end, id: old(self).line_counter }),
            *final(self) == (LineDrawingState {
                line_counter: (old(self).line_counter + 1) as u32,
                ..*old(self)
            }),
    {
        let id = self.line_counter;
        self.line_counter = self.line_counter + 1;
        DrawableLine { start, end, id }
    }

    /// Handles a click at `world_position`: an Idle gesture records it as
    /// the start point; a Pending one completes the line from its start
    /// point to `world_position`, gives it the next identifier and goes
    /// back to Idle.
    pub fn handle_line_click(&mut self, world_position: Vec3) -> (r: ClickOutcome)
        requires
            old(self).can_click(),
        ensures
            *final(self) == old(self).spec_click(world_position),
            r == old(self).spec_click_outcome(world_position),
            final(self).wf(),
    {
        if !self.is_drawing {
            self.start_point = Some(world_position);
            self.is_drawing = true;
            ClickOutcome::Started(world_position)
        } else {
            let outcome = match self.start_point {
                Some(start) => ClickOutcome::Completed(self.create_line(start, world_position)),
                None => ClickOutcome::Discarded,
            };
            self.reset_gesture();
            outcome
        }
    }

    /// The start point of the pending gesture, from which the preview runs.
    pub fn preview_start(&self) -> (r: Option<Vec3>)
        ensures
            r == (if self.is_drawing {
                self.start_point
            } else {
                None
            }),
    {
        if self.is_drawing {
            self.start_point
        } else {
            None
        }
    }

    /// Switches the tool on or off; switching it off drops a pending start
    /// point without making a line.
    pub fn toggle_enabled(&mut self)
        ensures
            *final(self) == old(self).spec_toggle(),
            old(self).wf() ==> final(self).wf(),
    {
        self.is_enabled = !self.is_enabled;
        if !self.is_enabled {
            self.reset_gesture();
        }
    }

    /// Forgets the pending gesture and restarts the numbering at zero.
    pub fn clear_all(&mut self)
        ensures
            *final(self) == old(self).spec_clear(),
            final(self).wf(),
    {
        self.reset_gesture();
        self.line_counter = 0;
    }
}

impl Default for LineDrawingState {
    fn default() -> (r: LineDrawingState)
        ensures
            r == LineDrawingState::initial(),
    {
        LineDrawingState::new()
    }
}

/// One frame of the line tool. `clicked_at` is the ground-plane point under
/// a primary click made this frame, if there was one and the cursor was
/// over the plane. A disabled tool ignores the click and shows no preview.
pub fn line_drawing_system(
    line_state: &mut LineDrawingState,
    clicked_at: Option<Vec3>,
) -> (r: LineDrawingStep)
    requires
        old(line_state).is_enabled && clicked_at.is_some() ==> old(line_state).can_click(),
    ensures
        !old(line_state).is_enabled ==> *final(line_state) == *old(line_state) && r.click.is_none()
            && r.preview_from.is_none(),
        old(line_state).is_enabled ==> match clicked_at {
            Some(p) => *final(line_state) == old(line_state).spec_click(p) && r.click == Some(
                old(line_state).spec_click_outcome(p),
            ),
            None => *final(line_state) == *old(line_state) && r.click.is_none(),
        },
        old(line_state).is_enabled ==> r.preview_from == (if final(line_state).is_drawing {
            final(line_state).start_point
        } else {
            None
        }),
        old(line_state).wf() ==> final(line_state).wf(),
{
    if !line_state.is_enabled {
        return LineDrawingStep { click: None, preview_from: None };
    }
    let click = match clicked_at {
        Some(p) => Some(line_state.handle_line_click(p)),
        None => None,
    };
    let preview_from = line_state.preview_start();
    LineDrawingStep { click, preview_from }
}

/// Handles the key that switches the tool on and off.
pub fn toggle_line_drawing_system(line_state: &mut LineDrawingState, toggle_pressed: bool)
    ensures
        *final(line_state) == (if toggle_pressed {
            old(line_state).spec_toggle()
        } else {
            *old(line_state)
        }),
        old(line_state).wf() ==> final(line_state).wf(),
{
    if toggle_pressed {
        line_state.toggle_enabled();
    }
}

/// Handles the clear-all key. Returns whether every line and endpoint
/// marker is to be removed.
pub fn clear_lines_system(line_state: &mut LineDrawingState, clear_pressed: bool) -> (r: bool)
    ensures
        r == clear_pressed,
        *final(line_state) == (if clear_pressed {
            old(line_state).spec_clear()
        } else {
            *old(line_state)
        }),
        old(line_state).wf() ==> final(line_state).wf(),
{
    if clear_pressed {
        line_state.clear_all();
    }
    clear_pressed
}

/// Handles this frame's create-line and delete-all events, given by their
/// counts: a create event switches the tool on, a delete event clears
/// everything. Returns whether every line and endpoint marker is to be
/// removed.
pub fn handle_line_events(
    line_state: &mut LineDrawingState,
    create_events: usize,
    delete_events: usize,
) -> (r: bool)
    ensures
        r == (delete_events > 0),
        *final(line_state) == old(line_state).spec_after_events(create_events > 0, delete_events > 0),
        old(line_state).wf() ==> final(line_state).wf(),
{
    if create_events > 0 {
        line_state.is_enabled = true;
    }
    if delete_events > 0 {
        line_state.clear_all();
    }
    delete_events > 0
}

/// The line tool together with the lines it has completed since the last
/// clear, in order.
#[derive(Debug)]
pub struct LineSession {
    tool: LineDrawingState,
    lines: Vec<DrawableLine>,
}

impl View for LineSession {
    type V = Seq<DrawableLine>;

    closed spec fn view(&self) -> Seq<DrawableLine> {
        self.lines@
    }
}

/// The lines after a frame whose click had `click` as its effect.
pub open spec fn lines_after(lines: Seq<DrawableLine>, click: Option<ClickOutcome>) -> Seq<
    DrawableLine,
> {
    match click {
        Some(ClickOutcome::Completed(line)) => lines.push(line),
        _ => lines,
    }
}

impl LineSession {
    /// The state of the gesture.
    pub closed spec fn tool_state(&self) -> LineDrawingState {
        self.tool
    }

    /// The gesture is well formed, the next identifier is the number of
    /// lines, and line `i` has identifier `i`.
    pub open spec fn inv(&self) -> bool {
        &&& self.tool_state().wf()
        &&& self.tool_state().line_counter == self@.len()
        &&& forall|i: int| 0 <= i < self@.len() ==> (#[trigger] self@[i]).id == i
    }

    pub fn new() -> (r: LineSession)
        ensures
            r.inv(),
            r.tool_state() == LineDrawingState::initial(),
            r@.len() == 0,
    {
        LineSession { tool: LineDrawingState::new(), lines: Vec::new() }
    }

    pub fn tool(&self) -> (r: &LineDrawingState)
        ensures
            *r == self.tool_state(),
    {
        &self.tool
    }

    pub fn lines(&self) -> (r: &Vec<DrawableLine>)
        ensures
            r@ == self@,
    {
        &self.lines
    }

    /// Whether a frame may complete a line: identifiers must not run out.
    pub fn can_complete(&self) -> (r: bool)
        ensures
            r == (self@.len() < u32::MAX),
    {
        self.lines.len() < u32::MAX as usize
    }

    /// One frame of the line tool, as `line_drawing_system`; a completed
    /// line is added to the lines.
    pub fn frame(&mut self, clicked_at: Option<Vec3>) -> (r: LineDrawingStep)
        requires
            old(self).inv(),
            old(self).tool_state().is_enabled && clicked_at.is_some() ==> old(self)@.len()
                < u32::MAX,
        ensures
            final(self).inv(),
            !old(self).tool_state().is_enabled ==> final(self).tool_state() == old(
                self,
            ).tool_state() && r.click.is_none() && r.preview_from.is_none(),
            old(self).tool_state().is_enabled ==> match clicked_at {
                Some(p) => final(self).tool_state() == old(self).tool_state().spec_click(p)
                    && r.click == Some(old(self).tool_state().spec_click_outcome(p)),
                None => final(self).tool_state() == old(self).tool_state() && r.click.is_none(),
            },
            old(self).tool_state().is_enabled ==> r.preview_from == (if final(self).tool_state().is_drawing {
                final(self).tool_state().start_point
            } else {
                None
            }),
            final(self)@ == lines_after(old(self)@, r.click),
    {
        let r = line_drawing_system(&mut self.tool, clicked_at);
        if let Some(ClickOutcome::Completed(line)) = r.click {
            self.lines.push(line);
        }
        proof {
            assert forall|i: int| 0 <= i < self@.len() implies (#[trigger] self@[i]).id == i by {
                if i < old(self)@.len() {
                    assert(self@[i] == old(self)@[i]);
                }
            }
        }
        r
    }

    /// Handles the key that switches the tool on and off.
    pub fn toggle(&mut self, toggle_pressed: bool)
        requires
            old(self).inv(),
        ensures
            final(self).inv(),
            final(self).tool_state() == (if toggle_pressed {
                old(self).tool_state().spec_toggle()
            } else {
                old(self).tool_state()
            }),
            final(self)@ == old(self)@,
    {
        toggle_line_drawing_system(&mut self.tool, toggle_pressed);
    }

    /// Handles the clear-all key: every line goes and the numbering restarts
    /// at zero. Returns whether lines and markers are to be removed.
    pub fn clear(&mut self, clear_pressed: bool) -> (r: bool)
        requires
            old(self).inv(),
        ensures
            r == clear_pressed,
            final(self).inv(),
            final(self).tool_state() == (if clear_pressed {
                old(self).tool_state().spec_clear()
            } else {
                old(self).tool_state()
            }),
            final(self)@ == (if clear_pressed {
                Seq::empty()
            } else {
                old(self)@
            }),
    {
        let cleared = clear_lines_system(&mut self.tool, clear_pressed);
        if cleared {
            self.lines.clear();
        }
        cleared
    }

    /// Handles this frame's create-line and delete-all events, as
    /// `handle_line_events`; a delete event removes every line.
    pub fn handle_events(&mut self, create_events: usize, delete_events: usize) -> (r: bool)
        requires
            old(self).inv(),
        ensures
            r == (delete_events > 0),
            final(self).inv(),
            final(self).tool_state() == old(self).tool_state().spec_after_events(
                create_events > 0,
                delete_events > 0,
            ),
            final(self)@ == (if delete_events > 0 {
                Seq::empty()
            } else {
                old(self)@
            }),
    {
        let cleared = handle_line_events(&mut self.tool, create_events, delete_events);
        if cleared {
            self.lines.clear();
        }
        cleared
    }
}

/// Identifiers increase along the lines of a session: a line completed
/// later has a larger identifier.
pub proof fn lemma_session_ids_increase(s: LineSession, i: int, j: int)
    requires
        s.inv(),
        0 <= i < j < s@.len(),
    ensures
        s@[i].id < s@[j].id,
{
}

/// Numbering of completed lines. From an idle tool numbering from zero, a
/// gesture from `a` to `b` makes the line `a`-`b` with identifier 0; the
/// next gesture, from `c` to `d`, makes the line `c`-`d` with identifier 1;
/// clearing afterwards makes the next gesture, from `e` to `f`, get
/// identifier 0 again.
pub proof fn lemma_line_identifiers(
    s: LineDrawingState,
    a: Vec3,
    b: Vec3,
    c: Vec3,
    d: Vec3,
    e: Vec3,
    f: Vec3,
)
    requires
        !s.is_drawing,
        s.line_counter == 0,
    ensures
        ({
            let s1 = s.spec_click(a);
            let s2 = s1.spec_click(b);
            let s3 = s2.spec_click(c);
            let s4 = s3.spec_click(d);
            let s5 = s4.spec_clear();
            let s6 = s5.spec_click(e);
            &&& s.spec_click_outcome(a) == ClickOutcome::Started(a)
            &&& s1.spec_click_outcome(b) == ClickOutcome::Completed(
                DrawableLine { start: a, end: b, id: 0 },
            )
            &&& s2.spec_click_outcome(c) == ClickOutcome::Started(c)
            &&& s3.spec_click_outcome(d) == ClickOutcome::Completed(
                DrawableLine { start: c, end: d, id: 1 },
            )
            &&& s4.line_counter == 2
            &&& s5.line_counter == 0
            &&& s6.spec_click_outcome(f) == ClickOutcome::Completed(
                DrawableLine { start: e, end: f, id: 0 },
            )
        }),
{
}

/// Switching the tool off while a gesture is Pending drops its start point:
/// once the tool is switched back on, the gesture is Idle, and clicks at `p`
/// and then `q` make the line `p`-`q`, not one from the dropped point.
pub proof fn lemma_disable_drops_pending_start(s: LineDrawingState, p: Vec3, q: Vec3)
    requires
        s.wf(),
        s.is_enabled,
        s.is_drawing,
    ensures
        ({
            let t = s.spec_toggle().spec_toggle();
            &&& t.is_enabled
            &&& !t.is_drawing
            &&& t.start_point.is_none()
            &&& t.line_counter == s.line_counter
            &&& t.spec_click_outcome(p) == ClickOutcome::Started(p)
            &&& t.spec_click(p).spec_click_outcome(q) == ClickOutcome::Completed(
                DrawableLine { start: p, end: q, id: s.line_counter },
            )
        }),
{
}

} // verus!
