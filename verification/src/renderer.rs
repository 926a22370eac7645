//! The plan of one frame: the commands of its render pass, in order.
//!
//! A frame clears colour and depth, binds the instance buffer, draws the light
//! marker with the light pipeline, then draws the model at every instance with
//! the model pipeline, and is submitted and presented. Nothing is recorded for
//! a frame whose surface image could not be had.

use vstd::prelude::*;
use crate::state::State;
use crate::units::Color;

verus! {

/// Vertex buffer slot of the mesh's own vertices.
pub const MESH_SLOT: u32 = 0;

/// Vertex buffer slot of the per-instance matrices.
pub const INSTANCE_SLOT: u32 = 1;

/// Depth that the pass is cleared to, in thousandths: the far plane.
pub const CLEAR_DEPTH: u32 = 1000;

/// Why no surface image could be had for a frame.
#[derive(Clone, Copy, Debug, PartialEq, Eq, Structural)]
pub enum SurfaceError {
    /// The image did not arrive in time.
    Timeout,
    /// The surface has changed under the configuration.
    Outdated,
    /// The surface is gone and has to be set up again.
    Lost,
    /// No memory is left.
    OutOfMemory,
}

/// One part of the model: a run of indices and the material it is drawn with.
#[derive(Clone, Copy, Debug, PartialEq, Eq, Structural)]
pub struct Mesh {
    pub num_elements: u32,
    pub material: usize,
}

/// The parts of the loaded model, and how many materials came with it.
#[derive(Debug, PartialEq, Eq)]
pub struct Model {
    pub meshes: Vec<Mesh>,
    pub materials: usize,
}

impl Model {
    /// Every mesh names a material that the model has.
    pub open spec fn wf(&self) -> bool {
        materials_exist(self.meshes@, self.materials)
    }

    /// A model of `meshes` with `materials` materials; none where a mesh names
    /// a material that is not there.
    pub fn new(meshes: Vec<Mesh>, materials: usize) -> (model: Option<Model>)
        ensures
            model.is_some() <==> materials_exist(meshes@, materials),
            model.is_some() ==> model.unwrap().wf() && model.unwrap().meshes == meshes
                && model.unwrap().materials == materials,
    {
        let model = Model { meshes, materials };
        if model.is_wf() {
            Some(model)
        } else {
            None
        }
    }

    /// Tells whether every mesh names a material that the model has.
    pub fn is_wf(&self) -> (ok: bool)
        ensures
            ok == self.wf(),
    {
        let mut i: usize = 0;
        while i < self.meshes.len()
            invariant
                i <= self.meshes.len(),
                forall|k: int| 0 <= k < i ==> (#[trigger] self.meshes@[k]).material < self.materials,
            decreases self.meshes.len() - i,
        {
            if self.meshes[i].material >= self.materials {
                return false;
            }
            i = i + 1;
        }
        true
    }
}

/// Every one of `meshes` names one of `materials` materials.
pub open spec fn materials_exist(meshes: Seq<Mesh>, materials: usize) -> bool {
    forall|i: int| 0 <= i < meshes.len() ==> (#[trigger] meshes[i]).material < materials
}

#[derive(Clone, Copy, Debug, PartialEq, Eq, Structural)]
pub enum Pipeline {
    Light,
    Model,
}

#[derive(Clone, Copy, Debug, PartialEq, Eq, Structural)]
pub enum Buffer {
    /// The matrices of all instances.
    Instances,
    /// The vertices of the mesh with this number.
    MeshVertices(usize),
    /// The indices of the mesh with this number.
    MeshIndices(usize),
}

#[derive(Clone, Copy, Debug, PartialEq, Eq, Structural)]
pub enum BindGroup {
    Camera,
    Light,
    /// The model's own material with this number.
    Material(usize),
    /// The stand-in material of debug mode.
    DebugMaterial,
}

/// One step of a frame.
#[derive(Clone, Copy, Debug, PartialEq, Eq, Structural)]
pub enum Command {
    /// Opens the pass on the surface image and the depth texture, clearing both.
    BeginPass { clear_color: Color, clear_depth: u32, store: bool },
    SetVertexBuffer { slot: u32, buffer: Buffer },
    SetIndexBuffer { buffer: Buffer },
    SetPipeline { pipeline: Pipeline },
    SetBindGroup { index: u32, group: BindGroup },
    /// Draws indices `0..index_count` once for each instance in
    /// `first_instance..end_instance`.
    DrawIndexed { index_count: u32, first_instance: u32, end_instance: u32 },
    EndPass,
    Submit,
    Present,
}

/// The colour behind the scene.
pub open spec fn background() -> Color {
    Color { r: 100, g: 200, b: 300, a: 1000 }
}

/// The commands that open a frame, up to the binding of the light pipeline.
pub open spec fn opening() -> Seq<Command> {
    seq![
        Command::BeginPass { clear_color: background(), clear_depth: CLEAR_DEPTH, store: true },
        Command::SetVertexBuffer { slot: INSTANCE_SLOT, buffer: Buffer::Instances },
        Command::SetPipeline { pipeline: Pipeline::Light },
    ]
}

/// The commands that close a frame.
pub open spec fn closing() -> Seq<Command> {
    seq![Command::EndPass, Command::Submit, Command::Present]
}

/// Drawing mesh number `index` as the light marker: once, without a material.
pub open spec fn light_mesh_commands(index: int, mesh: Mesh) -> Seq<Command> {
    seq![
        Command::SetVertexBuffer { slot: MESH_SLOT, buffer: Buffer::MeshVertices(index as usize) },
        Command::SetIndexBuffer { buffer: Buffer::MeshIndices(index as usize) },
        Command::SetBindGroup { index: 0, group: BindGroup::Camera },
        Command::SetBindGroup { index: 1, group: BindGroup::Light },
        Command::DrawIndexed { index_count: mesh.num_elements, first_instance: 0, end_instance: 1 },
    ]
}

/// The material that a mesh is drawn with: its own, or the stand-in in debug mode.
pub open spec fn material_of(mesh: Mesh, use_debug: bool) -> BindGroup {
    if use_debug {
        BindGroup::DebugMaterial
    } else {
        BindGroup::Material(mesh.material)
    }
}

/// Drawing mesh number `index` of the model at all `instances` instances.
pub open spec fn model_mesh_commands(index: int, mesh: Mesh, instances: u32, use_debug: bool)
    -> Seq<Command> {
    seq![
        Command::SetVertexBuffer { slot: MESH_SLOT, buffer: Buffer::MeshVertices(index as usize) },
        Command::SetIndexBuffer { buffer: Buffer::MeshIndices(index as usize) },
        Command::SetBindGroup { index: 0, group: material_of(mesh, use_debug) },
        Command::SetBindGroup { index: 1, group: BindGroup::Camera },
        Command::SetBindGroup { index: 2, group: BindGroup::Light },
        Command::DrawIndexed {
            index_count: mesh.num_elements,
            first_instance: 0,
            end_instance: instances,
        },
    ]
}

/// The light marker drawn for the first `count` meshes.
pub open spec fn light_draws(meshes: Seq<Mesh>, count: nat) -> Seq<Command>
    decreases count,
{
    if count == 0 {
        Seq::empty()
    } else {
        light_draws(meshes, (count - 1) as nat) + light_mesh_commands(
            count - 1,
            meshes[count - 1],
        )
    }
}

/// The model drawn for the first `count` meshes.
pub open spec fn model_draws(meshes: Seq<Mesh>, count: nat, instances: u32, use_debug: bool)
    -> Seq<Command>
    decreases count,
{
    if count == 0 {
        Seq::empty()
    } else {
        model_draws(meshes, (count - 1) as nat, instances, use_debug) + model_mesh_commands(
            count - 1,
            meshes[count - 1],
            instances,
            use_debug,
        )
    }
}

/// The whole frame for a model of `meshes`, drawn at `instances` instances.
pub open spec fn frame_plan(meshes: Seq<Mesh>, instances: u32, use_debug: bool) -> Seq<Command> {
    opening() + light_draws(meshes, meshes.len()) + seq![
        Command::SetPipeline { pipeline: Pipeline::Model },
    ] + model_draws(meshes, meshes.len(), instances, use_debug) + closing()
}

/// Records the commands of one frame.
pub fn frame_commands(model: &Model, instances: u32, use_debug: bool) -> (commands: Vec<Command>)
    ensures
        commands@ == frame_plan(model.meshes@, instances, use_debug),
{
    let mut commands: Vec<Command> = Vec::new();
    commands.push(
        Command::BeginPass {
            clear_color: Color { r: 100, g: 200, b: 300, a: 1000 },
            clear_depth: CLEAR_DEPTH,
            store: true,
        },
    );
    commands.push(Command::SetVertexBuffer { slot: INSTANCE_SLOT, buffer: Buffer::Instances });
    commands.push(Command::SetPipeline { pipeline: Pipeline::Light });
    assert(commands@ =~= opening());
    let mut i: usize = 0;
    while i < model.meshes.len()
        invariant
            i <= model.meshes.len(),
            commands@ == opening() + light_draws(model.meshes@, i as nat),
        decreases model.meshes.len() - i,
    {
        let mesh = model.meshes[i];
        let ghost before = commands@;
        commands.push(Command::SetVertexBuffer { slot: MESH_SLOT, buffer: Buffer::MeshVertices(i) });
        commands.push(Command::SetIndexBuffer { buffer: Buffer::MeshIndices(i) });
        commands.push(Command::SetBindGroup { index: 0, group: BindGroup::Camera });
        commands.push(Command::SetBindGroup { index: 1, group: BindGroup::Light });
        commands.push(
            Command::DrawIndexed { index_count: mesh.num_elements, first_instance: 0, end_instance: 1 },
        );
        assert(commands@ =~= before + light_mesh_commands(i as int, mesh));
        assert(commands@ =~= opening() + light_draws(model.meshes@, (i + 1) as nat));
        i = i + 1;
    }
    commands.push(Command::SetPipeline { pipeline: Pipeline::Model });
    let ghost head = commands@;
    assert(head =~= opening() + light_draws(model.meshes@, model.meshes@.len()) + seq![
        Command::SetPipeline { pipeline: Pipeline::Model },
    ]);
    let mut j: usize = 0;
    while j < model.meshes.len()
        invariant
            j <= model.meshes.len(),
            commands@ == head + model_draws(model.meshes@, j as nat, instances, use_debug),
        decreases model.meshes.len() - j,
    {
        let mesh = model.meshes[j];
        let group = if use_debug {
            BindGroup::DebugMaterial
        } else {
            BindGroup::Material(mesh.material)
        };
        let ghost before = commands@;
        commands.push(Command::SetVertexBuffer { slot: MESH_SLOT, buffer: Buffer::MeshVertices(j) });
        commands.push(Command::SetIndexBuffer { buffer: Buffer::MeshIndices(j) });
        commands.push(Command::SetBindGroup { index: 0, group });
        commands.push(Command::SetBindGroup { index: 1, group: BindGroup::Camera });
        commands.push(Command::SetBindGroup { index: 2, group: BindGroup::Light });
        commands.push(
            Command::DrawIndexed {
                index_count: mesh.num_elements,
                first_instance: 0,
                end_instance: instances,
            },
        );
        assert(commands@ =~= before + model_mesh_commands(j as int, mesh, instances, use_debug));
        assert(commands@ =~= head + model_draws(
            model.meshes@,
            (j + 1) as nat,
            instances,
            use_debug,
        ));
        j = j + 1;
    }
    let ghost body = commands@;
    commands.push(Command::EndPass);
    commands.push(Command::Submit);
    commands.push(Command::Present);
    assert(commands@ =~= body + closing());
    commands
}

/// The light marker of `count` meshes takes five commands a mesh, and the
/// `step`-th command of mesh `mesh_index` stands at `5 * mesh_index + step`.
pub proof fn lemma_light_draws(meshes: Seq<Mesh>, count: nat, mesh_index: int, step: int)
    requires
        0 <= mesh_index < count,
        0 <= step < 5,
    ensures
        light_draws(meshes, count).len() == 5 * count,
        light_draws(meshes, count)[5 * mesh_index + step] == light_mesh_commands(
            mesh_index,
            meshes[mesh_index],
        )[step],
    decreases count,
{
    lemma_light_draws_len(meshes, count);
    lemma_light_draws_len(meshes, (count - 1) as nat);
    if mesh_index < count - 1 {
        lemma_light_draws(meshes, (count - 1) as nat, mesh_index, step);
    }
}

/// The light marker of `count` meshes takes five commands a mesh.
pub proof fn lemma_light_draws_len(meshes: Seq<Mesh>, count: nat)
    ensures
        light_draws(meshes, count).len() == 5 * count,
    decreases count,
{
    if count > 0 {
        lemma_light_draws_len(meshes, (count - 1) as nat);
    }
}

/// The model of `count` meshes takes six commands a mesh.
pub proof fn lemma_model_draws_len(
    meshes: Seq<Mesh>,
    count: nat,
    instances: u32,
    use_debug: bool,
)
    ensures
        model_draws(meshes, count, instances, use_debug).len() == 6 * count,
    decreases count,
{
    if count > 0 {
        lemma_model_draws_len(meshes, (count - 1) as nat, instances, use_debug);
    }
}

/// The `step`-th command of mesh `mesh_index` of the model stands at
/// `6 * mesh_index + step`.
pub proof fn lemma_model_draws(
    meshes: Seq<Mesh>,
    count: nat,
    instances: u32,
    use_debug: bool,
    mesh_index: int,
    step: int,
)
    requires
        0 <= mesh_index < count,
        0 <= step < 6,
    ensures
        model_draws(meshes, count, instances, use_debug).len() == 6 * count,
        model_draws(meshes, count, instances, use_debug)[6 * mesh_index + step]
            == model_mesh_commands(mesh_index, meshes[mesh_index], instances, use_debug)[step],
    decreases count,
{
    lemma_model_draws_len(meshes, count, instances, use_debug);
    lemma_model_draws_len(meshes, (count - 1) as nat, instances, use_debug);
    if mesh_index < count - 1 {
        lemma_model_draws(meshes, (count - 1) as nat, instances, use_debug, mesh_index, step);
    }
}

/// Where the light pipeline is bound in every frame.
pub open spec fn light_bind_index() -> int {
    2
}

/// Where the model pipeline is bound in the frame of a model of `meshes` meshes.
pub open spec fn model_bind_index(meshes: nat) -> int {
    3 + 5 * (meshes as int)
}

/// What stands at each place of a frame: the opening, five commands for each
/// mesh of the light marker, the binding of the model pipeline, six commands
/// for each mesh of the model, and the closing.
pub proof fn lemma_frame_plan_at(meshes: Seq<Mesh>, instances: u32, use_debug: bool, i: int)
    requires
        0 <= i < 7 + 11 * meshes.len(),
    ensures
        frame_plan(meshes, instances, use_debug).len() == 7 + 11 * meshes.len(),
        i < 3 ==> frame_plan(meshes, instances, use_debug)[i] == opening()[i],
        3 <= i < model_bind_index(meshes.len()) ==> frame_plan(meshes, instances, use_debug)[i]
            == light_mesh_commands((i - 3) / 5, meshes[(i - 3) / 5])[(i - 3) % 5],
        i == model_bind_index(meshes.len()) ==> frame_plan(meshes, instances, use_debug)[i]
            == (Command::SetPipeline { pipeline: Pipeline::Model }),
        model_bind_index(meshes.len()) < i < 4 + 11 * meshes.len() ==> frame_plan(
            meshes,
            instances,
            use_debug,
        )[i] == model_mesh_commands(
            (i - 4 - 5 * meshes.len()) / 6,
            meshes[(i - 4 - 5 * meshes.len()) / 6],
            instances,
            use_debug,
        )[(i - 4 - 5 * meshes.len()) % 6],
        4 + 11 * meshes.len() <= i ==> frame_plan(meshes, instances, use_debug)[i] == closing()[i
            - 4 - 11 * meshes.len()],
{
    let n = meshes.len();
    lemma_light_draws_len(meshes, n);
    lemma_model_draws_len(meshes, n, instances, use_debug);
    if 3 <= i < 3 + 5 * n {
        lemma_light_draws(meshes, n, (i - 3) / 5, (i - 3) % 5);
    }
    if 3 + 5 * n < i < 4 + 11 * n {
        let at = i - 4 - 5 * n;
        lemma_model_draws(meshes, n, instances, use_debug, at / 6, at % 6);
    }
}

/// Within the one pass of a frame, the light comes first: the light pipeline is
/// bound, then the light marker is drawn once for each mesh, at one instance;
/// only then is the model pipeline bound, and the model drawn for each mesh at
/// all instances. No other pipeline is bound and nothing else is drawn.
pub proof fn lemma_light_pass_precedes_model_pass(
    meshes: Seq<Mesh>,
    instances: u32,
    use_debug: bool,
)
    ensures
        ({
            let plan = frame_plan(meshes, instances, use_debug);
            let light_bind = light_bind_index();
            let model_bind = model_bind_index(meshes.len());
            let end_pass = plan.len() - 3;
            &&& plan.len() == 7 + 11 * meshes.len()
            &&& plan[0] is BeginPass
            &&& plan[end_pass] == Command::EndPass
            &&& 0 < light_bind < model_bind < end_pass
            &&& plan[light_bind] == (Command::SetPipeline { pipeline: Pipeline::Light })
            &&& plan[model_bind] == (Command::SetPipeline { pipeline: Pipeline::Model })
            &&& forall|i: int|
                0 <= i < plan.len() && (#[trigger] plan[i]) is SetPipeline ==> i == light_bind || i
                    == model_bind
            &&& forall|i: int|
                0 <= i < plan.len() && (#[trigger] plan[i]) is BeginPass ==> i == 0
            &&& forall|i: int|
                0 <= i < plan.len() && (#[trigger] plan[i]) is EndPass ==> i == end_pass
            &&& forall|i: int|
                0 <= i < plan.len() && (#[trigger] plan[i]) is DrawIndexed ==> {
                    ||| light_bind < i < model_bind && plan[i] == (Command::DrawIndexed {
                        index_count: meshes[(i - 3) / 5].num_elements,
                        first_instance: 0,
                        end_instance: 1,
                    })
                    ||| model_bind < i < end_pass && plan[i] == (Command::DrawIndexed {
                        index_count: meshes[(i - 4 - 5 * meshes.len()) / 6].num_elements,
                        first_instance: 0,
                        end_instance: instances,
                    })
                }
            &&& forall|k: int|
                0 <= k < meshes.len() ==> (#[trigger] plan[3 + 5 * k + 4]) is DrawIndexed
            &&& forall|k: int|
                0 <= k < meshes.len() ==> (#[trigger] plan[model_bind + 1 + 6 * k + 5])
                    is DrawIndexed
        }),
{
    let plan = frame_plan(meshes, instances, use_debug);
    let n = meshes.len() as int;
    lemma_frame_plan_at(meshes, instances, use_debug, 0);
    lemma_frame_plan_at(meshes, instances, use_debug, 2);
    lemma_frame_plan_at(meshes, instances, use_debug, 3 + 5 * n);
    lemma_frame_plan_at(meshes, instances, use_debug, 4 + 11 * n);
    assert forall|i: int| 0 <= i < plan.len() implies (((#[trigger] plan[i]) is SetPipeline ==> i
        == 2 || i == 3 + 5 * n) && (plan[i] is BeginPass ==> i == 0) && (plan[i] is EndPass ==> i
        == plan.len() - 3) && (plan[i] is DrawIndexed ==> {
        ||| 2 < i < 3 + 5 * n && plan[i] == (Command::DrawIndexed {
            index_count: meshes[(i - 3) / 5].num_elements,
            first_instance: 0,
            end_instance: 1,
        })
        ||| 3 + 5 * n < i < plan.len() - 3 && plan[i] == (Command::DrawIndexed {
            index_count: meshes[(i - 4 - 5 * n) / 6].num_elements,
            first_instance: 0,
            end_instance: instances,
        })
    })) by {
        lemma_frame_plan_at(meshes, instances, use_debug, i);
    }
    assert forall|k: int| 0 <= k < n implies (#[trigger] plan[3 + 5 * k + 4]) is DrawIndexed by {
        lemma_frame_plan_at(meshes, instances, use_debug, 3 + 5 * k + 4);
    }
    assert forall|k: int| 0 <= k < n implies (#[trigger] plan[3 + 5 * n + 1 + 6 * k + 5])
        is DrawIndexed by {
        lemma_frame_plan_at(meshes, instances, use_debug, 3 + 5 * n + 1 + 6 * k + 5);
    }
}

/// Where the material of mesh `mesh_index` is bound in the frame of a model of
/// `meshes` meshes.
pub open spec fn material_bind_index(meshes: nat, mesh_index: int) -> int {
    model_bind_index(meshes) + 1 + 6 * mesh_index + 2
}

/// The material of each mesh is bound as group 0 under the model pipeline: the
/// stand-in in debug mode, the mesh's own otherwise. No other group 0 of the
/// model pass and no other place in the frame binds a material.
pub proof fn lemma_material_bound(
    meshes: Seq<Mesh>,
    instances: u32,
    use_debug: bool,
    mesh_index: int,
)
    requires
        0 <= mesh_index < meshes.len(),
    ensures
        0 <= material_bind_index(meshes.len(), mesh_index) < frame_plan(
            meshes,
            instances,
            use_debug,
        ).len(),
        frame_plan(meshes, instances, use_debug)[material_bind_index(meshes.len(), mesh_index)]
            == (Command::SetBindGroup { index: 0, group: material_of(meshes[mesh_index], use_debug) }),
        forall|i: int|
            0 <= i < frame_plan(meshes, instances, use_debug).len() ==> (match (
            #[trigger] frame_plan(meshes, instances, use_debug)[i]) {
                Command::SetBindGroup { group: BindGroup::DebugMaterial, .. } => use_debug,
                Command::SetBindGroup { group: BindGroup::Material(_), .. } => !use_debug,
                _ => true,
            }),
{
    let plan = frame_plan(meshes, instances, use_debug);
    lemma_frame_plan_at(
        meshes,
        instances,
        use_debug,
        material_bind_index(meshes.len(), mesh_index),
    );
    assert forall|i: int| 0 <= i < plan.len() implies (match (#[trigger] plan[i]) {
        Command::SetBindGroup { group: BindGroup::DebugMaterial, .. } => use_debug,
        Command::SetBindGroup { group: BindGroup::Material(_), .. } => !use_debug,
        _ => true,
    }) by {
        lemma_frame_plan_at(meshes, instances, use_debug, i);
    }
}

/// Plans one frame of `state`. Where no surface image could be had, the
/// failure is handed back and nothing is recorded.
pub fn render(state: &State, surface: Result<(), SurfaceError>) -> (result: Result<
    Vec<Command>,
    SurfaceError,
>)
    requires
        state.wf(),
    ensures
        surface.is_ok() ==> result.is_ok() && result.unwrap()@ == frame_plan(
            state.obj_model.meshes@,
            state.instances@.len() as u32,
            state.use_debug,
        ),
        surface.is_err() ==> result == Err::<Vec<Command>, SurfaceError>(surface.unwrap_err()),
{
    match surface {
        Err(error) => Err(error),
        Ok(_) => Ok(frame_commands(&state.obj_model, state.instances.len() as u32, state.use_debug)),
    }
}

} // verus!
