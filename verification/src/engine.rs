//! The state of the renderer between frames, and what each frame does: how
//! input, a change of size, the passing of time and the drawing of a frame
//! change that state, and which commands a frame records.
//!
//! The device, the queue and the surface stay with the caller. The engine
//! says what is to be done to them; the caller does it.

use crate::camera::{Camera, CameraController, Heading, Key, Projection, ScrollDelta};
use crate::fixed::{Vector3, UNIT};
use crate::instance::{instance_layout, HeightMap, Instance, InstanceRaw, Placement};
use crate::layout::VertexBufferLayout;
use crate::vertices::{mesh_indices, vertex_layout, Vertex};
use vstd::prelude::*;

verus! {

/// Indices of the mesh: three for each of its ten triangles.
pub const NUM_INDICES: u32 = 30;

/// The yaw a session starts with: a quarter turn to the left of the x axis,
/// towards the scene.
pub const FIRST_YAW: i64 = -1_570_796;

/// The pitch a session starts with: twenty degrees down.
pub const FIRST_PITCH: i64 = -349_066;

/// The size of a surface in pixels.
#[derive(Clone, Copy, Debug, PartialEq, Eq, Structural)]
pub struct Size {
    pub width: u32,
    pub height: u32,
}

/// The buttons of a pointer.
#[derive(Clone, Copy, Debug, PartialEq, Eq, Structural)]
pub enum MouseButton {
    Left,
    Right,
    Middle,
    Other,
}

/// What the window reports. A key that the shell could not name comes as
/// `None`.
#[derive(Clone, Copy, Debug, PartialEq, Eq, Structural)]
pub enum Event {
    KeyboardInput { key: Option<Key>, pressed: bool },
    MouseWheel { delta: ScrollDelta },
    MouseInput { button: MouseButton, pressed: bool },
    Other,
}

/// Why the surface gave no image to draw on.
#[derive(Clone, Copy, Debug, PartialEq, Eq, Structural)]
pub enum SurfaceError {
    Timeout,
    Outdated,
    Lost,
    OutOfMemory,
}

/// What is left to do after a frame that was not drawn.
#[derive(Clone, Copy, Debug, PartialEq, Eq, Structural)]
pub enum Recovery {
    /// Nothing: the next frame is tried as usual.
    SkipFrame,
    /// The surface is configured anew before the next frame.
    Reconfigure,
    /// Nothing can be drawn any more.
    Abort,
}

/// A colour with its opacity, each part a fixed-point number from nothing to
/// one.
#[derive(Clone, Copy, Debug, PartialEq, Eq, Structural)]
pub struct Color {
    pub r: i64,
    pub g: i64,
    pub b: i64,
    pub a: i64,
}

/// The buffers that hold one element for each vertex or instance.
#[derive(Clone, Copy, Debug, PartialEq, Eq, Structural)]
pub enum VertexSource {
    Mesh,
    Instances,
}

/// The groups of resources that the shaders read.
#[derive(Clone, Copy, Debug, PartialEq, Eq, Structural)]
pub enum BindGroup {
    Texture,
    Camera,
}

/// The width of an index in the index buffer.
#[derive(Clone, Copy, Debug, PartialEq, Eq, Structural)]
pub enum IndexFormat {
    Uint16,
    Uint32,
}

/// When a fragment passes the depth test: how its depth must stand to the
/// depth already drawn at its pixel.
#[derive(Clone, Copy, Debug, PartialEq, Eq, Structural)]
pub enum CompareFunction {
    Never,
    Less,
    Equal,
    LessEqual,
    Greater,
    NotEqual,
    GreaterEqual,
    Always,
}

/// What the pipeline is built with, besides the shaders: the layouts of the
/// vertex buffers, by slot, and the depth test.
#[derive(Clone, Debug)]
pub struct PipelineState {
    pub buffers: Vec<VertexBufferLayout>,
    pub depth_write_enabled: bool,
    pub depth_compare: CompareFunction,
}

/// One command of a render pass.
#[derive(Clone, Copy, Debug, PartialEq, Eq, Structural)]
pub enum Command {
    SetPipeline,
    SetBindGroup { index: u32, group: BindGroup },
    SetVertexBuffer { slot: u32, source: VertexSource },
    SetIndexBuffer { format: IndexFormat },
    /// Draws `index_count` indices from `first_index` on, once for each of
    /// `instance_count` instances from `first_instance` on.
    DrawIndexed {
        first_index: u32,
        index_count: u32,
        base_vertex: i32,
        first_instance: u32,
        instance_count: u32,
    },
}

/// One render pass: what the colour and the depth of every pixel start as,
/// and the commands in the order they are recorded.
#[derive(Clone, Debug)]
pub struct RenderPass {
    pub clear_color: Color,
    pub clear_depth: i64,
    pub commands: Vec<Command>,
}

/// The renderer's state.
#[derive(Debug)]
pub struct Engine {
    /// The size the surface is configured to.
    pub size: Size,
    /// The size of the depth buffer.
    pub depth_size: Size,
    pub num_indices: u32,
    pub camera: Camera,
    pub projection: Projection,
    pub camera_controller: CameraController,
    pub instances: Vec<Instance>,
    pub mouse_pressed: bool,
}

/// The colour behind everything: a dark blue-green.
pub open spec fn background() -> Color {
    Color { r: 100_000, g: 200_000, b: 200_000, a: UNIT }
}

/// The camera that every session starts with: five units up and ten back,
/// turned a quarter turn to face the scene, tipped twenty degrees down.
pub open spec fn first_camera() -> Camera {
    Camera {
        position: Vector3 { x: 0, y: 5_000_000, z: 10_000_000 },
        yaw: FIRST_YAW,
        pitch: FIRST_PITCH,
    }
}

/// The lens that every session starts with: 45 degrees from top to bottom,
/// sharp from a tenth of a unit to a hundred units.
pub open spec fn first_projection(size: Size) -> Projection {
    Projection {
        width: size.width,
        height: size.height,
        fovy: 785_398,
        znear: 100_000,
        zfar: 100_000_000,
    }
}

/// The controller that every session starts with: at rest, four units a
/// second, four tenths of a radian for each pixel and second.
pub open spec fn first_controller() -> CameraController {
    CameraController {
        forward: false,
        backward: false,
        left: false,
        right: false,
        up: false,
        down: false,
        rotate_horizontal: 0,
        rotate_vertical: 0,
        scroll: 0,
        speed: 4_000_000,
        sensitivity: 400_000,
    }
}

/// The commands of a frame that draws `index_count` indices for each of
/// `instance_count` instances.
pub open spec fn frame_commands(index_count: u32, instance_count: u32) -> Seq<Command> {
    seq![
        Command::SetPipeline,
        Command::SetBindGroup { index: 1, group: BindGroup::Camera },
        Command::SetVertexBuffer { slot: 0, source: VertexSource::Mesh },
        Command::SetVertexBuffer { slot: 1, source: VertexSource::Instances },
        Command::SetIndexBuffer { format: IndexFormat::Uint16 },
        Command::SetBindGroup { index: 0, group: BindGroup::Texture },
        Command::DrawIndexed {
            first_index: 0,
            index_count,
            base_vertex: 0,
            first_instance: 0,
            instance_count,
        },
    ]
}

impl SurfaceError {
    /// What is left to do after this error.
    pub open spec fn spec_recovery(self) -> Recovery {
        match self {
            SurfaceError::Timeout | SurfaceError::Outdated => Recovery::SkipFrame,
            SurfaceError::Lost => Recovery::Reconfigure,
            SurfaceError::OutOfMemory => Recovery::Abort,
        }
    }

    /// What is left to do after this error: a frame that came too late or
    /// for a surface that has changed is skipped, a lost surface is
    /// configured anew, and without memory nothing more can be drawn.
    pub fn recovery(&self) -> (r: Recovery)
        ensures
            r == self.spec_recovery(),
    {
        match self {
            SurfaceError::Timeout | SurfaceError::Outdated => Recovery::SkipFrame,
            SurfaceError::Lost => Recovery::Reconfigure,
            SurfaceError::OutOfMemory => Recovery::Abort,
        }
    }
}

impl Size {
    /// Neither side is nothing.
    pub open spec fn visible(self) -> bool {
        self.width > 0 && self.height > 0
    }
}

impl Engine {
    /// The depth buffer covers the surface, the index count is that of the
    /// mesh, the instances can be counted in a draw call, and the camera's
    /// pitch is within its limit.
    pub open spec fn well_formed(&self) -> bool {
        &&& self.depth_size == self.size
        &&& self.num_indices == mesh_indices().len()
        &&& self.instances@.len() <= u32::MAX
        &&& self.camera.pitch_within_limit()
    }

    /// The state after the surface changed to `new_size`: a size with a side
    /// of nothing changes nothing.
    pub open spec fn resized(self, new_size: Size) -> Engine {
        if new_size.visible() {
            Engine {
                size: new_size,
                depth_size: new_size,
                projection: self.projection.resized(new_size.width, new_size.height),
                ..self
            }
        } else {
            self
        }
    }

    /// The event is one that the engine acts on.
    pub open spec fn handles(event: Event) -> bool {
        match event {
            Event::KeyboardInput { key: Some(key), .. } => CameraController::steers(key),
            Event::KeyboardInput { key: None, .. } => false,
            Event::MouseWheel { .. } => true,
            Event::MouseInput { button, .. } => button == MouseButton::Left,
            Event::Other => false,
        }
    }

    /// The state after `event`.
    pub open spec fn after_input(self, event: Event) -> Engine {
        match event {
            Event::KeyboardInput { key: Some(key), pressed } => Engine {
                camera_controller: self.camera_controller.keyed(key, pressed),
                ..self
            },
            Event::MouseWheel { delta } => Engine {
                camera_controller: self.camera_controller.scrolled(delta),
                ..self
            },
            Event::MouseInput { button: MouseButton::Left, pressed } => Engine {
                mouse_pressed: pressed,
                ..self
            },
            _ => self,
        }
    }

    /// The state after the pointer moved: it turns the camera only while the
    /// left button is held.
    pub open spec fn after_motion(self, dx: i64, dy: i64) -> Engine {
        if self.mouse_pressed {
            Engine { camera_controller: self.camera_controller.turned(dx, dy), ..self }
        } else {
            self
        }
    }

    /// The state after a frame of `dt_micros` microseconds.
    pub open spec fn after_update(self, heading: Heading, dt_micros: u64) -> Engine {
        Engine {
            camera: self.camera_controller.advanced(self.camera, heading, dt_micros),
            camera_controller: self.camera_controller.consumed(),
            ..self
        }
    }

    /// The state a session starts in, for a surface of `size` and a terrain
    /// placed as [`Placement::terrain`] says.
    pub fn new(size: Size, terrain: &HeightMap) -> (engine: Engine)
        requires
            terrain.spec_size() * terrain.spec_size() <= u32::MAX,
        ensures
            engine.well_formed(),
            engine.size == size,
            engine.depth_size == size,
            engine.num_indices == NUM_INDICES,
            engine.camera == first_camera(),
            engine.projection == first_projection(size),
            engine.camera_controller == first_controller(),
            engine.instances@ == Instance::grid(terrain, Placement::spec_terrain()),
            !engine.mouse_pressed,
    {
        let camera: Camera = Camera::new(
            Vector3 { x: 0, y: 5_000_000, z: 10_000_000 },
            FIRST_YAW,
            FIRST_PITCH,
        );
        let projection: Projection = Projection::new(
            size.width,
            size.height,
            785_398,
            100_000,
            100_000_000,
        );
        let camera_controller: CameraController = CameraController::new(4_000_000, 400_000);
        let placement: Placement = Placement::terrain();
        let instances: Vec<Instance> = Instance::create_instances(terrain, &placement);
        proof {
            crate::vertices::mesh_is_closed();
        }
        Engine {
            size,
            depth_size: size,
            num_indices: NUM_INDICES,
            camera,
            projection,
            camera_controller,
            instances,
            mouse_pressed: false,
        }
    }

    /// What the pipeline is built with: the mesh's layout for slot 0 and the
    /// instances' layout for slot 1, as a frame binds them, and a depth test
    /// that lets the nearer fragment win, since the instances are drawn in no
    /// order.
    pub fn pipeline() -> (state: PipelineState)
        ensures
            state.buffers@.len() == 2,
            state.buffers@[0]@ == vertex_layout(),
            state.buffers@[1]@ == instance_layout(),
            state.buffers@[0].well_formed(),
            state.buffers@[1].well_formed(),
            state.depth_write_enabled,
            state.depth_compare == CompareFunction::Less,
    {
        let mut buffers: Vec<VertexBufferLayout> = Vec::new();
        buffers.push(Vertex::desc());
        buffers.push(InstanceRaw::desc());
        PipelineState { buffers, depth_write_enabled: true, depth_compare: CompareFunction::Less }
    }

    /// Takes a new size of the surface, and says whether the surface and the
    /// depth buffer are to be made anew at that size. A size with a side of
    /// nothing, as of a minimised window, is passed over.
    pub fn resize(&mut self, new_size: Size) -> (applied: bool)
        requires
            old(self).well_formed(),
        ensures
            applied == new_size.visible(),
            *final(self) == old(self).resized(new_size),
            final(self).well_formed(),
            applied ==> final(self).depth_size == new_size && final(self).projection.aspect_is(
                new_size.width as int,
                new_size.height as int,
            ),
    {
        if !(new_size.width > 0 && new_size.height > 0) {
            return false;
        }
        self.size = new_size;
        self.depth_size = new_size;
        self.projection.resize(new_size.width, new_size.height);
        true
    }

    /// Takes an event of the window, and says whether the engine acted on
    /// it: a key that steers, the wheel, or the left button.
    pub fn input(&mut self, event: &Event) -> (used: bool)
        ensures
            used == Self::handles(*event),
            *final(self) == old(self).after_input(*event),
            old(self).well_formed() ==> final(self).well_formed(),
    {
        match event {
            Event::KeyboardInput { key: Some(key), pressed } => {
                self.camera_controller.process_keyboard(*key, *pressed)
            },
            Event::MouseWheel { delta } => {
                self.camera_controller.process_scroll(delta);
                true
            },
            Event::MouseInput { button: MouseButton::Left, pressed } => {
                self.mouse_pressed = *pressed;
                true
            },
            _ => false,
        }
    }

    /// Takes a movement of the pointer: it turns the camera while the left
    /// button is held, and is passed over otherwise.
    pub fn mouse_motion(&mut self, dx: i64, dy: i64)
        ensures
            *final(self) == old(self).after_motion(dx, dy),
            old(self).well_formed() ==> final(self).well_formed(),
    {
        if self.mouse_pressed {
            self.camera_controller.process_mouse(dx, dy);
        }
    }

    /// Advances the camera by a frame of `dt_micros` microseconds. `heading`
    /// holds the sines and cosines of the camera's angles as they are before
    /// the call.
    pub fn update(&mut self, heading: &Heading, dt_micros: u64)
        ensures
            *final(self) == old(self).after_update(*heading, dt_micros),
            final(self).camera.pitch_within_limit(),
            final(self).camera_controller.at_rest(),
            old(self).well_formed() ==> final(self).well_formed(),
    {
        self.camera_controller.update_camera(&mut self.camera, heading, dt_micros);
    }

    /// The render pass for the image that `acquired` stands for, or the
    /// error with which the surface gave none. The pass clears the image to
    /// the background and the depth to the far plane, binds what the
    /// shaders read, and draws the whole mesh once for every instance.
    pub fn render(&self, acquired: Result<(), SurfaceError>) -> (pass: Result<
        RenderPass,
        SurfaceError,
    >)
        requires
            self.well_formed(),
        ensures
            acquired is Err ==> pass == Err::<RenderPass, SurfaceError>(acquired->Err_0),
            acquired is Ok ==> pass is Ok,
            pass is Ok ==> {
                &&& pass->Ok_0.clear_color == background()
                &&& pass->Ok_0.clear_depth == UNIT
                &&& pass->Ok_0.commands@ == frame_commands(
                    self.num_indices,
                    self.instances@.len() as u32,
                )
            },
    {
        match acquired {
            Err(e) => Err(e),
            Ok(()) => {
                let instance_count: u32 = self.instances.len() as u32;
                let commands: Vec<Command> = vec![
                    Command::SetPipeline,
                    Command::SetBindGroup { index: 1, group: BindGroup::Camera },
                    Command::SetVertexBuffer { slot: 0, source: VertexSource::Mesh },
                    Command::SetVertexBuffer { slot: 1, source: VertexSource::Instances },
                    Command::SetIndexBuffer { format: IndexFormat::Uint16 },
                    Command::SetBindGroup { index: 0, group: BindGroup::Texture },
                    Command::DrawIndexed {
                        first_index: 0,
                        index_count: self.num_indices,
                        base_vertex: 0,
                        first_instance: 0,
                        instance_count,
                    },
                ];
                assert(commands@ =~= frame_commands(self.num_indices, instance_count));
                Ok(
                    RenderPass {
                        clear_color: Color { r: 100_000, g: 200_000, b: 200_000, a: UNIT },
                        clear_depth: UNIT,
                        commands,
                    },
                )
            },
        }
    }
}

/// The two vertex buffers feed different inputs of the shader: no slot is
/// read from both the mesh and the instances.
pub proof fn layouts_share_no_slot(slot: u32)
    ensures
        !(vertex_layout().reads(slot) && instance_layout().reads(slot)),
        vertex_layout().well_formed(),
        instance_layout().well_formed(),
{
}

/// A frame has one draw and ends with it, and the draw covers every index of
/// the mesh and every instance.
pub proof fn one_draw_covers_everything(engine: Engine)
    requires
        engine.well_formed(),
    ensures
        forall|i: int|
            0 <= i < frame_commands(engine.num_indices, engine.instances@.len() as u32).len() ==> (
            (#[trigger] frame_commands(
                engine.num_indices,
                engine.instances@.len() as u32,
            )[i]) is DrawIndexed <==> i == 6),
        frame_commands(engine.num_indices, engine.instances@.len() as u32).last() == (
        Command::DrawIndexed {
            first_index: 0,
            index_count: mesh_indices().len() as u32,
            base_vertex: 0,
            first_instance: 0,
            instance_count: engine.instances@.len() as u32,
        }),
{
    crate::vertices::mesh_is_closed();
}

} // verus!
