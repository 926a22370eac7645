//! The scene as a whole, and what each event does to it.
//!
//! The scene decides; its caller acts. Every event is handed to `handle_event`,
//! which updates the scene and answers with what is to be done outside it:
//! ask for a redraw, set the surface up again, draw a frame, or stop.

use vstd::prelude::*;
use crate::camera::{
    after_key, after_tick, direction_of, motion_of, resized, saturate, turned, Camera,
    CameraController, Key, Motion, Projection, HALF_TURN, PITCH_LIMIT,
};
use crate::instance::{is_grid, Instance};
use crate::light::{advanced, LightUniform, STEP_DEGREES, TURN_DEGREES};
use crate::pipeline::{BindGroupLayout, RenderPipeline, Shader, VertexLayout};
use crate::renderer::{
    frame_plan, lemma_material_bound, material_bind_index, BindGroup, Command, Model, SurfaceError,
};
use crate::units::{Color, Vec3, DEGREE, UNIT};

verus! {

/// Instances in each row of the grid, and rows in the grid.
pub const NUM_INSTANCES_PER_ROW: u32 = 10;

/// Distance between neighbouring instances: three units.
pub const SPACE_BETWEEN: i32 = 3000;

/// Travel of the camera: four units per second.
pub const CAMERA_SPEED: u32 = 4000;

/// Turn of the camera for each pointer step: 0.4 radians per second.
pub const CAMERA_SENSITIVITY: u32 = 22_918;

/// Vertical field of view: 45 degrees.
pub const FOVY: u64 = 45_000_000_000;

/// Near plane: a tenth of a unit.
pub const ZNEAR: u32 = 100;

/// Far plane: a hundred units.
pub const ZFAR: u32 = 100_000;

/// The buttons of the pointer.
#[derive(Clone, Copy, Debug, PartialEq, Eq, Structural)]
pub enum MouseButton {
    Left,
    Right,
    Middle,
    Other,
}

/// What the window reports.
#[derive(Clone, Copy, Debug, PartialEq, Eq, Structural)]
pub enum WindowEvent {
    /// A key went down or up; `key` is absent where the key has no name.
    KeyboardInput { key: Option<Key>, pressed: bool },
    MouseWheel { delta: i32 },
    MouseInput { button: MouseButton, pressed: bool },
    Resized { width: u32, height: u32 },
    ScaleFactorChanged { width: u32, height: u32 },
    CloseRequested,
    Other,
}

/// What the event loop reports.
#[derive(Clone, Copy, Debug, PartialEq, Eq, Structural)]
pub enum Event {
    /// All pending events have been handed over.
    MainEventsCleared,
    /// The pointer moved by `dx` to the right and `dy` downward.
    MouseMotion { dx: i32, dy: i32 },
    /// Something happened to the scene's window.
    Window { event: WindowEvent },
    /// The window is to be drawn anew.
    RedrawRequested,
    Other,
}

/// What is to be done outside the scene.
#[derive(Clone, Copy, Debug, PartialEq, Eq, Structural)]
pub enum Response {
    /// Nothing.
    Continue,
    /// Ask the window for a redraw.
    RequestRedraw,
    /// Configure the surface for the scene's width and height, and make a new
    /// depth texture of that size.
    Reconfigure,
    /// Update the scene and draw a frame.
    Draw,
    /// Note that the surface timed out, and draw nothing.
    SkipFrame,
    /// Leave the event loop.
    Exit,
}

/// The uniform buffers that are written anew for every frame.
#[derive(Clone, Copy, Debug, PartialEq, Eq, Structural)]
pub enum Upload {
    /// The camera's matrix.
    Camera,
    /// The light's position and colour.
    Light,
}

/// What a tick leaves to be done before the frame is drawn.
#[derive(Debug, PartialEq, Eq)]
pub struct Tick {
    /// The travel to apply to the eye.
    pub motion: Motion,
    /// The buffers to write once the eye has moved, in this order.
    pub uploads: Vec<Upload>,
}

/// Everything the scene knows between two events.
#[derive(Debug, PartialEq)]
pub struct State {
    /// Width of the surface as last configured.
    pub width: u32,
    /// Height of the surface as last configured.
    pub height: u32,
    pub render_pipeline: RenderPipeline,
    pub light_render_pipeline: RenderPipeline,
    pub obj_model: Model,
    pub camera: Camera,
    pub projection: Projection,
    pub camera_controller: CameraController,
    pub instances: Vec<Instance>,
    pub light_uniform: LightUniform,
    pub use_debug: bool,
    pub mouse_pressed: bool,
}

/// The scene after a window event was offered to it.
pub open spec fn after_input(state: State, event: WindowEvent) -> State {
    match event {
        WindowEvent::KeyboardInput { key: Some(Key::Space), pressed } => State {
            use_debug: pressed,
            ..state
        },
        WindowEvent::KeyboardInput { key: Some(key), pressed } => State {
            camera_controller: after_key(state.camera_controller, key, pressed),
            ..state
        },
        WindowEvent::MouseWheel { delta } => State {
            camera_controller: CameraController {
                scroll: saturate(state.camera_controller.scroll + delta) as i32,
                ..state.camera_controller
            },
            ..state
        },
        WindowEvent::MouseInput { button: MouseButton::Left, pressed } => State {
            mouse_pressed: pressed,
            ..state
        },
        _ => state,
    }
}

/// Whether the scene takes a window event for itself.
pub open spec fn consumes(event: WindowEvent) -> bool {
    match event {
        WindowEvent::KeyboardInput { key: Some(Key::Space), .. } => true,
        WindowEvent::KeyboardInput { key: Some(key), .. } => direction_of(key).is_some(),
        WindowEvent::MouseWheel { .. } => true,
        WindowEvent::MouseInput { button: MouseButton::Left, .. } => true,
        _ => false,
    }
}

/// The scene after a surface of `width` by `height` was announced: taken over
/// where both are positive, ignored otherwise.
pub open spec fn after_resize(state: State, width: u32, height: u32) -> State {
    if width > 0 && height > 0 {
        State { width, height, projection: resized(state.projection, width, height), ..state }
    } else {
        state
    }
}

/// The scene after a tick of `dt` microseconds.
pub open spec fn after_update(state: State, dt: u32) -> State {
    State {
        camera: turned(state.camera, state.camera_controller, dt),
        camera_controller: after_tick(state.camera_controller),
        light_uniform: advanced(state.light_uniform, STEP_DEGREES),
        ..state
    }
}

/// What a window event that the scene did not take asks for.
pub open spec fn unconsumed_response(event: WindowEvent) -> Response {
    match event {
        WindowEvent::CloseRequested => Response::Exit,
        WindowEvent::KeyboardInput { key: Some(Key::Escape), pressed: true } => Response::Exit,
        WindowEvent::Resized { width, height } | WindowEvent::ScaleFactorChanged {
            width,
            height,
        } => if width > 0 && height > 0 {
            Response::Reconfigure
        } else {
            Response::Continue
        },
        _ => Response::Continue,
    }
}

/// The scene after an unconsumed window event.
pub open spec fn after_unconsumed(state: State, event: WindowEvent) -> State {
    match event {
        WindowEvent::Resized { width, height } | WindowEvent::ScaleFactorChanged {
            width,
            height,
        } => after_resize(state, width, height),
        _ => state,
    }
}

/// The scene after an event.
pub open spec fn after_event(state: State, event: Event) -> State {
    match event {
        Event::MouseMotion { dx, dy } => if state.mouse_pressed {
            State {
                camera_controller: CameraController {
                    rotate_horizontal: saturate(state.camera_controller.rotate_horizontal + dx) as i32,
                    rotate_vertical: saturate(state.camera_controller.rotate_vertical + dy) as i32,
                    ..state.camera_controller
                },
                ..state
            }
        } else {
            state
        },
        Event::Window { event } => if consumes(event) {
            after_input(state, event)
        } else {
            after_unconsumed(after_input(state, event), event)
        },
        _ => state,
    }
}

/// What an event asks for.
pub open spec fn response_to(event: Event) -> Response {
    match event {
        Event::MainEventsCleared => Response::RequestRedraw,
        Event::Window { event } => if consumes(event) {
            Response::Continue
        } else {
            unconsumed_response(event)
        },
        Event::RedrawRequested => Response::Draw,
        _ => Response::Continue,
    }
}

/// What the outcome of a frame asks for.
pub open spec fn frame_response(state: State, outcome: Result<(), SurfaceError>) -> Response {
    match outcome {
        Ok(_) => Response::Continue,
        Err(SurfaceError::Lost) | Err(SurfaceError::Outdated) => if state.width > 0 && state.height
            > 0 {
            Response::Reconfigure
        } else {
            Response::Continue
        },
        Err(SurfaceError::OutOfMemory) => Response::Exit,
        Err(SurfaceError::Timeout) => Response::SkipFrame,
    }
}

/// The scene after a frame: a lost or outdated surface has the scene take its
/// own size over once more, which changes nothing in a scene that fits together.
pub open spec fn after_frame(state: State, outcome: Result<(), SurfaceError>) -> State {
    match outcome {
        Err(SurfaceError::Lost) | Err(SurfaceError::Outdated) => after_resize(
            state,
            state.width,
            state.height,
        ),
        _ => state,
    }
}

impl State {
    /// The parts of the scene fit together: the surface has a size, the
    /// projection has its aspect, angles are in range, every mesh has its
    /// material, and the instances can be counted in 32 bits.
    pub open spec fn wf(&self) -> bool {
        &&& self.width > 0 && self.height > 0
        &&& self.projection.width == self.width && self.projection.height == self.height
        &&& self.camera.wf()
        &&& self.light_uniform.wf()
        &&& self.obj_model.wf()
        &&& self.instances@.len() <= u32::MAX
    }

    /// Tells whether the parts of the scene fit together.
    pub fn is_wf(&self) -> (ok: bool)
        ensures
            ok == self.wf(),
    {
        self.width > 0 && self.height > 0 && self.projection.width == self.width
            && self.projection.height == self.height && -HALF_TURN <= self.camera.yaw
            && self.camera.yaw < HALF_TURN && -PITCH_LIMIT <= self.camera.pitch
            && self.camera.pitch <= PITCH_LIMIT && self.light_uniform.phase < TURN_DEGREES
            && self.obj_model.is_wf() && self.instances.len() <= u32::MAX as usize
    }

    /// The scene at startup, for a surface of `width` by `height` in
    /// `color_format`, with a depth texture in `depth_format`. There is none
    /// where the surface has no size, or where a mesh of the model names a
    /// material that the model does not have.
    pub fn new(
        width: u32,
        height: u32,
        color_format: wgpu::TextureFormat,
        depth_format: wgpu::TextureFormat,
        obj_model: Model,
    ) -> (state: Option<State>)
        ensures
            state.is_some() <==> width > 0 && height > 0 && obj_model.wf(),
            state.is_some() ==> {
                let s = state.unwrap();
                &&& s.wf()
                &&& s.width == width
                &&& s.height == height
                &&& s.obj_model == obj_model
                &&& s.camera == (Camera {
                    eye: Vec3 { x: 0, y: 5000, z: 10_000 },
                    yaw: (-90_000_000_000i64),
                    pitch: (-20_000_000_000i64),
                })
                &&& s.projection == (Projection {
                    width,
                    height,
                    fovy: FOVY,
                    znear: ZNEAR,
                    zfar: ZFAR,
                })
                &&& s.camera_controller == (CameraController {
                    speed: CAMERA_SPEED,
                    sensitivity: CAMERA_SENSITIVITY,
                    forward: false,
                    backward: false,
                    left: false,
                    right: false,
                    up: false,
                    down: false,
                    rotate_horizontal: 0,
                    rotate_vertical: 0,
                    scroll: 0,
                })
                &&& is_grid(s.instances@, NUM_INSTANCES_PER_ROW, SPACE_BETWEEN)
                &&& s.light_uniform == (LightUniform {
                    start: Vec3 { x: 2000, y: 2000, z: 2000 },
                    color: Color { r: 1000, g: 1000, b: 1000, a: 1000 },
                    phase: 0,
                })
                &&& s.render_pipeline.is_built_from(
                    s.render_pipeline.layout,
                    color_format,
                    Some(depth_format),
                    seq![VertexLayout::Mesh, VertexLayout::InstanceMatrix],
                    Shader::Model,
                )
                &&& s.render_pipeline.layout.is_made_of(
                    seq![BindGroupLayout::Texture, BindGroupLayout::Camera, BindGroupLayout::Light],
                )
                &&& s.light_render_pipeline.is_built_from(
                    s.light_render_pipeline.layout,
                    color_format,
                    Some(depth_format),
                    seq![VertexLayout::Mesh],
                    Shader::Light,
                )
                &&& s.light_render_pipeline.layout.is_made_of(
                    seq![BindGroupLayout::Camera, BindGroupLayout::Light],
                )
                &&& !s.use_debug
                &&& !s.mouse_pressed
            },
    {
        let projection = match Projection::new(width, height, FOVY, ZNEAR, ZFAR) {
            Some(projection) => projection,
            None => {
                return None;
            },
        };
        if !obj_model.is_wf() {
            return None;
        }
        let camera = Camera::new(Vec3 { x: 0, y: 5 * UNIT, z: 10 * UNIT }, -90 * DEGREE, -20 * DEGREE);
        let camera_controller = CameraController::new(CAMERA_SPEED, CAMERA_SENSITIVITY);
        let instances = Instance::build_grid(NUM_INSTANCES_PER_ROW, SPACE_BETWEEN);
        let light_uniform = LightUniform::new();
        assert(instances@.len() == 100);

        let mut model_groups: Vec<BindGroupLayout> = Vec::new();
        model_groups.push(BindGroupLayout::Texture);
        model_groups.push(BindGroupLayout::Camera);
        model_groups.push(BindGroupLayout::Light);
        let mut model_vertices: Vec<VertexLayout> = Vec::new();
        model_vertices.push(VertexLayout::Mesh);
        model_vertices.push(VertexLayout::InstanceMatrix);
        assert(model_groups@ =~= seq![
            BindGroupLayout::Texture,
            BindGroupLayout::Camera,
            BindGroupLayout::Light,
        ]);
        assert(model_vertices@ =~= seq![VertexLayout::Mesh, VertexLayout::InstanceMatrix]);
        let render_pipeline = RenderPipeline::new(
            RenderPipeline::create_pipeline_layout(model_groups),
            color_format,
            Some(depth_format),
            model_vertices,
            Shader::Model,
        );

        let mut light_groups: Vec<BindGroupLayout> = Vec::new();
        light_groups.push(BindGroupLayout::Camera);
        light_groups.push(BindGroupLayout::Light);
        let mut light_vertices: Vec<VertexLayout> = Vec::new();
        light_vertices.push(VertexLayout::Mesh);
        assert(light_groups@ =~= seq![BindGroupLayout::Camera, BindGroupLayout::Light]);
        assert(light_vertices@ =~= seq![VertexLayout::Mesh]);
        let light_render_pipeline = RenderPipeline::new(
            RenderPipeline::create_pipeline_layout(light_groups),
            color_format,
            Some(depth_format),
            light_vertices,
            Shader::Light,
        );

        Some(
            State {
                width,
                height,
                render_pipeline,
                light_render_pipeline,
                obj_model,
                camera,
                projection,
                camera_controller,
                instances,
                light_uniform,
                use_debug: false,
                mouse_pressed: false,
            },
        )
    }

    /// Takes over a new surface size. A size with a zero side is ignored: the
    /// scene, its aspect included, stays as it was. Tells whether the surface
    /// is to be set up again.
    pub fn resize(&mut self, width: u32, height: u32) -> (applied: bool)
        ensures
            applied == (width > 0 && height > 0),
            *final(self) == after_resize(*old(self), width, height),
            (width == 0 || height == 0) ==> *final(self) == *old(self),
            old(self).wf() ==> final(self).wf(),
    {
        if width > 0 && height > 0 {
            self.projection.resize(width, height);
            self.width = width;
            self.height = height;
            true
        } else {
            false
        }
    }

    /// Offers a window event to the scene and tells whether the scene took it.
    /// The space bar switches debug mode on while it is down; motion keys go to
    /// the camera controller; the wheel feeds the zoom; the left button starts
    /// and ends looking around. No other event is taken.
    pub fn input(&mut self, event: &WindowEvent) -> (consumed: bool)
        ensures
            consumed == consumes(*event),
            *final(self) == after_input(*old(self), *event),
            old(self).wf() ==> final(self).wf(),
    {
        match *event {
            WindowEvent::KeyboardInput { key: Some(Key::Space), pressed } => {
                self.use_debug = pressed;
                true
            },
            WindowEvent::KeyboardInput { key: Some(key), pressed } => {
                self.camera_controller.process_keyboard(key, pressed)
            },
            WindowEvent::MouseWheel { delta } => {
                self.camera_controller.process_scroll(delta);
                true
            },
            WindowEvent::MouseInput { button: MouseButton::Left, pressed } => {
                self.mouse_pressed = pressed;
                true
            },
            _ => false,
        }
    }

    /// Lets `dt` microseconds pass: the camera turns by what the controller
    /// gathered, and the light moves one step. Returns the travel that is left
    /// to apply to the eye, and the buffers to write after that: the camera's,
    /// then the light's.
    pub fn update(&mut self, dt: u32) -> (tick: Tick)
        ensures
            *final(self) == after_update(*old(self), dt),
            tick.motion == motion_of(old(self).camera_controller, dt),
            tick.uploads@ == seq![Upload::Camera, Upload::Light],
            old(self).wf() ==> final(self).wf(),
    {
        let motion = self.camera_controller.update_camera(&mut self.camera, dt);
        self.light_uniform.advance(STEP_DEGREES);
        let mut uploads: Vec<Upload> = Vec::new();
        uploads.push(Upload::Camera);
        uploads.push(Upload::Light);
        assert(uploads@ =~= seq![Upload::Camera, Upload::Light]);
        Tick { motion, uploads }
    }

    /// Plans the frame that shows the scene as it stands, given how acquiring
    /// the surface image went.
    pub fn render(&self, surface: Result<(), SurfaceError>) -> (result: Result<
        Vec<Command>,
        SurfaceError,
    >)
        requires
            self.wf(),
        ensures
            surface.is_ok() ==> result.is_ok() && result.unwrap()@ == frame_plan(
                self.obj_model.meshes@,
                self.instances@.len() as u32,
                self.use_debug,
            ),
            surface.is_err() ==> result == Err::<Vec<Command>, SurfaceError>(surface.unwrap_err()),
    {
        crate::renderer::render(self, surface)
    }

    /// Takes one event of the event loop and answers with what the caller is
    /// to do.
    pub fn handle_event(&mut self, event: &Event) -> (response: Response)
        ensures
            response == response_to(*event),
            *final(self) == after_event(*old(self), *event),
            old(self).wf() ==> final(self).wf(),
    {
        match *event {
            Event::MainEventsCleared => Response::RequestRedraw,
            Event::MouseMotion { dx, dy } => {
                if self.mouse_pressed {
                    self.camera_controller.process_mouse(dx, dy);
                }
                Response::Continue
            },
            Event::Window { event: window_event } => {
                if self.input(&window_event) {
                    Response::Continue
                } else {
                    match window_event {
                        WindowEvent::CloseRequested => Response::Exit,
                        WindowEvent::KeyboardInput {
                            key: Some(Key::Escape),
                            pressed: true,
                        } => Response::Exit,
                        WindowEvent::Resized { width, height }
                        | WindowEvent::ScaleFactorChanged { width, height } => {
                            if self.resize(width, height) {
                                Response::Reconfigure
                            } else {
                                Response::Continue
                            }
                        },
                        _ => Response::Continue,
                    }
                }
            },
            Event::RedrawRequested => Response::Draw,
            Event::Other => Response::Continue,
        }
    }

    /// Decides what follows a frame. A lost or outdated surface is set up
    /// again at the size the scene has; a timeout skips the frame; running out
    /// of memory ends the loop.
    pub fn after_render(&mut self, outcome: Result<(), SurfaceError>) -> (response: Response)
        ensures
            response == frame_response(*old(self), outcome),
            *final(self) == after_frame(*old(self), outcome),
            old(self).wf() ==> *final(self) == *old(self),
    {
        match outcome {
            Ok(_) => Response::Continue,
            Err(SurfaceError::Lost) | Err(SurfaceError::Outdated) => {
                let width: u32 = self.width;
                let height: u32 = self.height;
                if self.resize(width, height) {
                    Response::Reconfigure
                } else {
                    Response::Continue
                }
            },
            Err(SurfaceError::OutOfMemory) => Response::Exit,
            Err(SurfaceError::Timeout) => Response::SkipFrame,
        }
    }
}

/// The frame that shows `state`.
pub open spec fn plan_of(state: State) -> Seq<Command> {
    frame_plan(state.obj_model.meshes@, state.instances@.len() as u32, state.use_debug)
}

/// The space bar going down.
pub open spec fn space_pressed() -> WindowEvent {
    WindowEvent::KeyboardInput { key: Some(Key::Space), pressed: true }
}

/// The space bar going up.
pub open spec fn space_released() -> WindowEvent {
    WindowEvent::KeyboardInput { key: Some(Key::Space), pressed: false }
}

/// Debug mode follows the space bar, and the next frame shows it: while the
/// bar is down every mesh is drawn with the stand-in material, once it is up
/// again with its own, so the two frames bind different materials at the same
/// place. Both key events are taken by the scene.
pub proof fn lemma_debug_toggle_switches_material(state: State, mesh_index: int)
    requires
        0 <= mesh_index < state.obj_model.meshes@.len(),
    ensures
        consumes(space_pressed()),
        consumes(space_released()),
        ({
            let down = after_input(state, space_pressed());
            let up = after_input(down, space_released());
            let at = material_bind_index(state.obj_model.meshes@.len(), mesh_index);
            &&& down.use_debug
            &&& !up.use_debug
            &&& 0 <= at < plan_of(down).len()
            &&& plan_of(down).len() == plan_of(up).len()
            &&& plan_of(down)[at] == (Command::SetBindGroup {
                index: 0,
                group: BindGroup::DebugMaterial,
            })
            &&& plan_of(up)[at] == (Command::SetBindGroup {
                index: 0,
                group: BindGroup::Material(state.obj_model.meshes@[mesh_index].material),
            })
            &&& plan_of(down)[at] != plan_of(up)[at]
        }),
{
    let meshes = state.obj_model.meshes@;
    let instances = state.instances@.len() as u32;
    lemma_material_bound(meshes, instances, true, mesh_index);
    lemma_material_bound(meshes, instances, false, mesh_index);
    crate::renderer::lemma_frame_plan_at(meshes, instances, true, 0);
    crate::renderer::lemma_frame_plan_at(meshes, instances, false, 0);
}

/// A surface size with a zero side changes nothing: the scene keeps the
/// aspect it had.
pub proof fn lemma_zero_size_keeps_aspect(state: State, width: u32, height: u32)
    requires
        width == 0 || height == 0,
    ensures
        after_resize(state, width, height) == state,
        after_resize(state, width, height).projection.same_aspect(state.projection),
        after_event(state, Event::Window { event: WindowEvent::Resized { width, height } })
            == state,
        response_to(Event::Window { event: WindowEvent::Resized { width, height } })
            == Response::Continue,
{
}

} // verus!
