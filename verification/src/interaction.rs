//! The transform state machine: how frames and pointer events change the
//! cube's model transform.
//!
//! The machine never computes with angles or coordinates. It records which
//! matrices make up the model transform, as a product of [`Factor`]s, and the
//! caller turns that description into numbers.

use vstd::prelude::*;

verus! {

/// What a drag does to the cube.
#[derive(Clone, Copy, Debug, PartialEq, Eq)]
pub enum DragPolicy {
    /// A dragged move replaces the model transform by a translation to the
    /// cursor. The next frame's rotation replaces it in turn.
    Overwrite,
    /// A dragged move leaves the model transform alone and asks the caller to
    /// move the mesh itself under the cursor.
    RelocateMesh,
    /// A dragged move multiplies a translation onto the model transform from
    /// the left.
    Compose,
}

/// The size of the drawing surface in pixels.
#[derive(Clone, Copy, Debug, PartialEq, Eq)]
pub struct Viewport {
    pub width: u32,
    pub height: u32,
}

/// The depth, in whole units, of the translation that [`Factor::Place`]
/// stands for.
pub const PLACE_DEPTH: i32 = 1;

/// The depth, in whole units, of the translation that [`Factor::Shift`]
/// stands for.
pub const SHIFT_DEPTH: i32 = 0;

/// What a cursor coordinate is multiplied by, over the viewport's size on
/// that axis, in the translation that [`Factor::Shift`] stands for.
pub const SHIFT_SPAN: u32 = 2;

/// One matrix of the product that makes up a model transform.
#[derive(Clone, Copy, Debug, PartialEq)]
pub enum Factor<S> {
    /// The rotation whose axis-angle vector has `angle` in all three places.
    Spin { angle: S },
    /// The translation to the cursor position as it came, in pixels, at
    /// depth [`PLACE_DEPTH`].
    Place { x: S, y: S },
    /// The translation by `x * SHIFT_SPAN / width` and
    /// `y * SHIFT_SPAN / height`, at depth [`SHIFT_DEPTH`].
    Shift { x: S, y: S, viewport: Viewport },
}

/// Whether a drag is under way and where the cursor was last seen.
#[derive(Debug, PartialEq)]
pub struct DragState<S> {
    pub is_dragging: bool,
    pub last_cursor: (S, S),
}

/// What the event loop reports to the machine.
#[derive(Clone, Copy, Debug, PartialEq)]
pub enum Input<S> {
    /// The window was asked to close.
    CloseRequested,
    /// The left button went down over the surface.
    LeftPressed,
    /// The left button came up.
    LeftReleased,
    /// The cursor moved to `(x, y)`.
    CursorMoved { x: S, y: S },
    /// A window event that the machine does not recognise: another button,
    /// a key, a touch, a resize.
    OtherWindow,
    /// An event that belongs to no window.
    Idle,
}

/// What the caller has to do after an input, besides polling on.
#[derive(Clone, Copy, Debug, PartialEq)]
pub enum Action<S> {
    /// Nothing.
    Continue,
    /// Leave the event loop.
    Exit,
    /// Write the status line.
    PrintStatus,
    /// Move every vertex so that the mesh's centroid comes to lie under the
    /// cursor at `(x, y)` in a surface of size `viewport`.
    RelocateMesh { x: S, y: S, viewport: Viewport },
}

/// The frame counter after one more frame: it wraps at the width of `i32`.
pub open spec fn next_count(frames: i32) -> i32 {
    if frames == i32::MAX {
        i32::MIN
    } else {
        (frames + 1) as i32
    }
}

/// Counts one more frame.
pub fn count_frame(frames: i32) -> (next: i32)
    ensures
        next == next_count(frames),
{
    if frames == i32::MAX {
        i32::MIN
    } else {
        frames + 1
    }
}

/// The mathematical state of a [`TransformMachine`].
pub struct Model<S> {
    pub policy: DragPolicy,
    pub drag: DragState<S>,
    /// The model transform as a product of matrices, in the order in which
    /// they were multiplied on: the last one stands leftmost. The empty
    /// product is the identity.
    pub transform: Seq<Factor<S>>,
    pub frames: i32,
}

impl<S> Model<S> {
    /// The state at start-up: no drag, the identity transform, no frame yet.
    pub open spec fn initial(policy: DragPolicy, x: S, y: S) -> Model<S> {
        Model {
            policy,
            drag: DragState { is_dragging: false, last_cursor: (x, y) },
            transform: Seq::empty(),
            frames: 0,
        }
    }

    /// The state after the per-frame update at rotation angle `angle`: the
    /// transform is the rotation alone, whatever it was and whether or not a
    /// drag is under way.
    pub open spec fn after_frame(self, angle: S) -> Model<S> {
        Model {
            transform: seq![Factor::Spin { angle }],
            frames: next_count(self.frames),
            ..self
        }
    }

    /// The state once the cube was put at `(x, y)`: the transform is that
    /// translation alone.
    pub open spec fn placed_at(self, x: S, y: S) -> Model<S> {
        Model { transform: seq![Factor::Place { x, y }], ..self }
    }

    /// The transform after a cursor move to `(x, y)` during a drag.
    pub open spec fn dragged_transform(self, x: S, y: S, viewport: Viewport) -> Seq<Factor<S>> {
        match self.policy {
            DragPolicy::Overwrite => self.placed_at(x, y).transform,
            DragPolicy::RelocateMesh => self.transform,
            DragPolicy::Compose => self.transform.push(Factor::Shift { x, y, viewport }),
        }
    }

    /// The state after `input` arrived while the surface had size `viewport`.
    pub open spec fn after_input(self, input: Input<S>, viewport: Viewport) -> Model<S> {
        match input {
            Input::LeftPressed => Model {
                drag: DragState { is_dragging: true, ..self.drag },
                ..self
            },
            Input::LeftReleased => Model {
                drag: DragState { is_dragging: false, ..self.drag },
                ..self
            },
            Input::CursorMoved { x, y } => Model {
                drag: DragState { last_cursor: (x, y), ..self.drag },
                transform: if self.drag.is_dragging {
                    self.dragged_transform(x, y, viewport)
                } else {
                    self.transform
                },
                ..self
            },
            _ => self,
        }
    }

    /// What the caller is asked to do when `input` arrives.
    pub open spec fn action_on(self, input: Input<S>, viewport: Viewport) -> Action<S> {
        match input {
            Input::CloseRequested => Action::Exit,
            Input::Idle => Action::PrintStatus,
            Input::CursorMoved { x, y } => if self.drag.is_dragging && self.policy
                == DragPolicy::RelocateMesh {
                Action::RelocateMesh { x, y, viewport }
            } else {
                Action::Continue
            },
            _ => Action::Continue,
        }
    }
}

/// One turn of the event loop: the frame is advanced to `angle`, then `input`
/// is handled while the surface has size `viewport`.
pub struct Step<S> {
    pub angle: S,
    pub input: Input<S>,
    pub viewport: Viewport,
}

/// Whether `input` reports a cursor move.
pub open spec fn is_move<S>(input: Input<S>) -> bool {
    input is CursorMoved
}

/// Whether `input` comes from the pointer: a press, a release or a move.
pub open spec fn is_pointer_input<S>(input: Input<S>) -> bool {
    input is LeftPressed || input is LeftReleased || input is CursorMoved
}

impl<S> Model<S> {
    /// The state after the turns `steps` of the event loop, taken in order.
    pub open spec fn after_steps(self, steps: Seq<Step<S>>) -> Model<S>
        decreases steps.len(),
    {
        if steps.len() == 0 {
            self
        } else {
            let turn = steps.last();
            self.after_steps(steps.drop_last()).after_frame(turn.angle).after_input(
                turn.input,
                turn.viewport,
            )
        }
    }

    /// The shapes that the transform can take under each policy: at most one
    /// factor when drags overwrite, the rotation alone when drags relocate
    /// the mesh, and a rotation or nothing followed by shifts when drags
    /// compose.
    pub open spec fn has_policy_shape(self) -> bool {
        match self.policy {
            DragPolicy::Overwrite => self.transform.len() <= 1 && forall|i: int|
                0 <= i < self.transform.len() ==> !(#[trigger] self.transform[i] is Shift),
            DragPolicy::RelocateMesh => self.transform.len() <= 1 && forall|i: int|
                0 <= i < self.transform.len() ==> #[trigger] self.transform[i] is Spin,
            DragPolicy::Compose => forall|i: int|
                0 <= i < self.transform.len() ==> if i == 0 {
                    !(#[trigger] self.transform[i] is Place)
                } else {
                    self.transform[i] is Shift
                },
        }
    }
}

/// The per-frame update yields the rotation by the frame's angle on all
/// three axes and nothing else, under every policy and whether or not a drag
/// is under way; it leaves the drag state as it was.
pub proof fn frame_yields_auto_rotation<S>(m: Model<S>, angle: S)
    ensures
        m.after_frame(angle).transform == seq![Factor::Spin { angle }],
        m.after_frame(angle).drag == m.drag,
        m.after_frame(angle).policy == m.policy,
        m.after_frame(angle).frames == next_count(m.frames),
{
}

/// A run of the loop in which the cursor never moves ends with the rotation
/// of its last frame as the whole transform, and with the cursor where it
/// was. Presses and releases may occur: without a move they change nothing
/// but the drag flag.
pub proof fn run_without_moves_only_spins<S>(m: Model<S>, steps: Seq<Step<S>>)
    requires
        forall|i: int| 0 <= i < steps.len() ==> !is_move(#[trigger] steps[i].input),
    ensures
        steps.len() > 0 ==> m.after_steps(steps).transform == seq![
            Factor::Spin { angle: steps.last().angle },
        ],
        steps.len() == 0 ==> m.after_steps(steps) == m,
        m.after_steps(steps).drag.last_cursor == m.drag.last_cursor,
        m.after_steps(steps).policy == m.policy,
    decreases steps.len(),
{
    if steps.len() > 0 {
        run_without_moves_only_spins(m, steps.drop_last());
        assert(!is_move(steps[steps.len() - 1].input));
    }
}

/// With no pointer input at all, a run of the loop from a state without a
/// drag never starts one, asks for nothing but status lines, polling on or
/// leaving, and shows the rotation of its last frame alone.
pub proof fn quiet_run_stays_idle<S>(m: Model<S>, steps: Seq<Step<S>>)
    requires
        !m.drag.is_dragging,
        forall|i: int| 0 <= i < steps.len() ==> !is_pointer_input(#[trigger] steps[i].input),
    ensures
        !m.after_steps(steps).drag.is_dragging,
        m.after_steps(steps).drag == m.drag,
        steps.len() > 0 ==> m.after_steps(steps).transform == seq![
            Factor::Spin { angle: steps.last().angle },
        ],
        forall|i: int|
            0 <= i < steps.len() ==> !(#[trigger] m.after_steps(steps.take(i)).after_frame(
                steps[i].angle,
            ).action_on(steps[i].input, steps[i].viewport) is RelocateMesh),
    decreases steps.len(),
{
    if steps.len() > 0 {
        quiet_run_stays_idle(m, steps.drop_last());
        assert(!is_pointer_input(steps[steps.len() - 1].input));
    }
    assert forall|i: int| 0 <= i < steps.len() implies !(#[trigger] m.after_steps(
        steps.take(i),
    ).after_frame(steps[i].angle).action_on(steps[i].input, steps[i].viewport) is RelocateMesh) by {
        assert(!is_pointer_input(steps[i].input));
    }
}

/// A press followed at once by a release leaves the transform, the cursor
/// and the frame counter as they were before the press, ends without a drag,
/// and asks the caller for nothing: the mesh is not touched either. This
/// holds under every policy.
pub proof fn press_then_release_changes_nothing<S>(
    m: Model<S>,
    at_press: Viewport,
    at_release: Viewport,
)
    ensures
        ({
            let pressed = m.after_input(Input::LeftPressed, at_press);
            let released = pressed.after_input(Input::LeftReleased, at_release);
            &&& pressed.drag.is_dragging
            &&& !released.drag.is_dragging
            &&& released.transform == m.transform
            &&& released.drag.last_cursor == m.drag.last_cursor
            &&& released.frames == m.frames
            &&& released.policy == m.policy
            &&& m.action_on(Input::LeftPressed, at_press) == Action::<S>::Continue
            &&& pressed.action_on(Input::LeftReleased, at_release) == Action::<S>::Continue
        }),
{
}

/// Frames keep the shape of the policy, and so do inputs.
pub proof fn policy_shape_is_kept<S>(m: Model<S>, angle: S, input: Input<S>, viewport: Viewport)
    ensures
        m.after_frame(angle).has_policy_shape(),
        m.has_policy_shape() ==> m.after_input(input, viewport).has_policy_shape(),
{
}

/// Whatever happens in the loop, the transform has the shape of the policy
/// that the machine was started with.
pub proof fn every_run_has_policy_shape<S>(policy: DragPolicy, x: S, y: S, steps: Seq<Step<S>>)
    ensures
        Model::initial(policy, x, y).after_steps(steps).has_policy_shape(),
        Model::initial(policy, x, y).after_steps(steps).policy == policy,
    decreases steps.len(),
{
    if steps.len() > 0 {
        let turn = steps.last();
        every_run_has_policy_shape(policy, x, y, steps.drop_last());
        policy_shape_is_kept(
            Model::initial(policy, x, y).after_steps(steps.drop_last()),
            turn.angle,
            turn.input,
            turn.viewport,
        );
        policy_shape_is_kept(
            Model::initial(policy, x, y).after_steps(steps.drop_last()).after_frame(turn.angle),
            turn.angle,
            turn.input,
            turn.viewport,
        );
    }
}

/// The interactive transform of the cube: a drag state, the model transform
/// and the frame counter, under one drag policy.
pub struct TransformMachine<S> {
    policy: DragPolicy,
    drag: DragState<S>,
    transform: Vec<Factor<S>>,
    frames: i32,
}

impl<S> View for TransformMachine<S> {
    type V = Model<S>;

    closed spec fn view(&self) -> Model<S> {
        Model {
            policy: self.policy,
            drag: self.drag,
            transform: self.transform@,
            frames: self.frames,
        }
    }
}

impl<S: Copy> TransformMachine<S> {
    /// A machine at start-up, with the cursor taken to be at `(x, y)` until
    /// the first move is reported.
    pub fn new(policy: DragPolicy, x: S, y: S) -> (machine: Self)
        ensures
            machine@ == Model::initial(policy, x, y),
    {
        TransformMachine {
            policy,
            drag: DragState { is_dragging: false, last_cursor: (x, y) },
            transform: Vec::new(),
            frames: 0,
        }
    }

    /// The per-frame update: sets the transform to the rotation by `angle`
    /// on all three axes and counts the frame.
    pub fn advance_frame(&mut self, angle: S)
        ensures
            final(self)@ == old(self)@.after_frame(angle),
    {
        let mut transform: Vec<Factor<S>> = Vec::new();
        transform.push(Factor::Spin { angle });
        self.transform = transform;
        self.frames = count_frame(self.frames);
        assert(self.transform@ =~= seq![Factor::Spin { angle }]);
    }

    /// Puts the cube at `(x, y)`: whatever the transform was, it is now the
    /// translation to that position.
    pub fn set_position(&mut self, x: S, y: S)
        ensures
            final(self)@ == old(self)@.placed_at(x, y),
    {
        let mut transform: Vec<Factor<S>> = Vec::new();
        transform.push(Factor::Place { x, y });
        self.transform = transform;
        assert(self.transform@ =~= seq![Factor::Place { x, y }]);
    }

    /// Takes one input from the event loop and says what to do next.
    pub fn handle(&mut self, input: Input<S>, viewport: Viewport) -> (action: Action<S>)
        ensures
            final(self)@ == old(self)@.after_input(input, viewport),
            action == old(self)@.action_on(input, viewport),
    {
        match input {
            Input::CloseRequested => Action::Exit,
            Input::LeftPressed => {
                self.drag.is_dragging = true;
                Action::Continue
            },
            Input::LeftReleased => {
                self.drag.is_dragging = false;
                Action::Continue
            },
            Input::CursorMoved { x, y } => {
                self.drag.last_cursor = (x, y);
                if !self.drag.is_dragging {
                    return Action::Continue;
                }
                match self.policy {
                    DragPolicy::Overwrite => {
                        self.set_position(x, y);
                        Action::Continue
                    },
                    DragPolicy::RelocateMesh => Action::RelocateMesh { x, y, viewport },
                    DragPolicy::Compose => {
                        self.transform.push(Factor::Shift { x, y, viewport });
                        Action::Continue
                    },
                }
            },
            Input::OtherWindow => Action::Continue,
            Input::Idle => Action::PrintStatus,
        }
    }

    /// The drag policy that the machine was made with.
    pub fn policy(&self) -> (policy: DragPolicy)
        ensures
            policy == self@.policy,
    {
        self.policy
    }

    /// Whether a drag is under way.
    pub fn is_dragging(&self) -> (dragging: bool)
        ensures
            dragging == self@.drag.is_dragging,
    {
        self.drag.is_dragging
    }

    /// Where the cursor was last seen.
    pub fn last_cursor(&self) -> (cursor: (S, S))
        ensures
            cursor == self@.drag.last_cursor,
    {
        self.drag.last_cursor
    }

    /// The factors of the model transform, in the order in which they were
    /// multiplied on.
    pub fn transform(&self) -> (factors: &Vec<Factor<S>>)
        ensures
            factors@ == self@.transform,
    {
        &self.transform
    }

    /// How many frames were counted.
    pub fn frames(&self) -> (frames: i32)
        ensures
            frames == self@.frames,
    {
        self.frames
    }
}

} // verus!
