//! The recording side of the graphics context.
//!
//! A [`Context`] stands between the renderer and the graphics device. It
//! hands out the identifiers of new resources, keeps the commands that have
//! been recorded until the host takes them, and holds the shared programs of
//! the mesh families.
//!
//! A context assumes that the device does what it is told. If the device
//! fails at a command, the host stops there and reports the failure; the
//! context, and everything that was created through it, no longer says what
//! the device holds and is to be given up.

use vstd::prelude::*;
use crate::graphics::command::{lemma_views_push, views, Command, CommandView};
use crate::graphics::error::Error;
use crate::graphics::shaders::{ShaderSources, ShaderSourcesView};
use crate::graphics::types::Program;
use crate::object::cache::{
    held, MeshFamily, ProgramVariant, VariantCache, VariantCacheView,
};
use crate::object::mesh::{MeshProgram, ProgramVariantKey};

verus! {

/// The state of a recording.
pub struct Context {
    commands: Vec<Command>,
    next_id: u64,
    shaders: ShaderSources,
    mesh_programs: VariantCache,
    forward_programs: VariantCache,
}

/// What a [`Context`] holds.
pub struct ContextView {
    /// The commands recorded since the host last took them, oldest first.
    pub recorded: Seq<CommandView>,
    /// The identifier that the next new resource gets. Every identifier
    /// handed out so far is smaller.
    pub next_id: nat,
    /// The shader sources that the host supplied.
    pub shaders: ShaderSourcesView,
    /// The shared programs of plain meshes.
    pub mesh_programs: VariantCacheView,
    /// The shared programs of meshes lit in a forward pass.
    pub forward_programs: VariantCacheView,
}

impl ContextView {
    /// The state of a new context.
    pub open spec fn new(shaders: ShaderSourcesView) -> ContextView {
        ContextView {
            recorded: Seq::<CommandView>::empty(),
            next_id: 0,
            shaders,
            mesh_programs: VariantCacheView::empty(),
            forward_programs: VariantCacheView::empty(),
        }
    }

    /// The shared programs of a family.
    pub open spec fn cache(self, family: MeshFamily) -> VariantCacheView {
        match family {
            MeshFamily::Mesh => self.mesh_programs,
            MeshFamily::PhongForward => self.forward_programs,
        }
    }

    /// The state with the shared programs of a family replaced.
    pub open spec fn with_cache(self, family: MeshFamily, cache: VariantCacheView) -> ContextView {
        match family {
            MeshFamily::Mesh => ContextView { mesh_programs: cache, ..self },
            MeshFamily::PhongForward => ContextView { forward_programs: cache, ..self },
        }
    }

    /// Both caches are well formed, and no family has more live meshes than
    /// identifiers have been handed out.
    pub open spec fn wf(self) -> bool {
        &&& self.next_id <= u64::MAX
        &&& self.mesh_programs.wf()
        &&& self.forward_programs.wf()
        &&& self.mesh_programs.live <= self.next_id
        &&& self.forward_programs.live <= self.next_id
    }

    /// Whether `count` more identifiers can be handed out.
    pub open spec fn can_allocate(self, count: nat) -> bool {
        self.next_id + count <= u64::MAX
    }

    /// The state after `count` identifiers have been handed out.
    pub open spec fn allocate(self, count: nat) -> ContextView {
        ContextView { next_id: self.next_id + count, ..self }
    }

    /// The state after one more command has been recorded.
    pub open spec fn record(self, command: CommandView) -> ContextView {
        ContextView { recorded: self.recorded.push(command), ..self }
    }

    /// The state after more commands have been recorded.
    pub open spec fn record_all(self, commands: Seq<CommandView>) -> ContextView {
        ContextView { recorded: self.recorded + commands, ..self }
    }

    /// The program that the cache holds for a variant, if any.
    pub open spec fn cached(self, kind: ProgramVariant) -> Option<MeshProgram> {
        self.cache(kind.spec_family()).slots[kind.spec_slot()]
    }

    /// The state with `program` cached for a variant.
    pub open spec fn store(self, kind: ProgramVariant, program: MeshProgram) -> ContextView {
        self.with_cache(
            kind.spec_family(),
            self.cache(kind.spec_family()).store(kind.spec_slot(), program),
        )
    }

    /// The state after one more mesh of a family has come alive.
    pub open spec fn register(self, family: MeshFamily) -> ContextView {
        self.with_cache(family, self.cache(family).register())
    }

    /// The commands that delete the given programs, in order.
    pub open spec fn deletions(programs: Seq<MeshProgram>) -> Seq<CommandView> {
        programs.map_values(
            |program: MeshProgram| CommandView::DeleteProgram { program: program.program },
        )
    }

    /// The state after one mesh of a family has gone: with the last one the
    /// programs of the family are deleted and their slots emptied.
    pub open spec fn release(self, family: MeshFamily) -> ContextView {
        self.with_cache(family, self.cache(family).release()).record_all(
            ContextView::deletions(self.cache(family).released()),
        )
    }

    /// Compiling a mesh program from a fragment shader: the state afterwards
    /// and the program. It takes one identifier; without one, nothing
    /// changes.
    pub open spec fn create_mesh_program(self, fragment_shader_source: Seq<char>) -> (
        ContextView,
        Result<MeshProgram, Error>,
    ) {
        if self.can_allocate(1) {
            let key = ProgramVariantKey::spec_probe(fragment_shader_source);
            let program = Program { id: self.next_id as u64 };
            (
                self.allocate(1).record(
                    CommandView::CreateProgram {
                        program,
                        vertex_shader_source: key.spec_vertex_shader_source(),
                        fragment_shader_source,
                    },
                ),
                Ok(MeshProgram::of_key(program, key)),
            )
        } else {
            (self, Err(Error::OutOfHandles))
        }
    }

    /// Asking for the program of a variant: the state afterwards and the
    /// program. A cached program is returned as it is; otherwise the program
    /// is compiled and cached.
    pub open spec fn get_or_create(self, kind: ProgramVariant) -> (
        ContextView,
        Result<MeshProgram, Error>,
    ) {
        match self.cached(kind) {
            Some(program) => (self, Ok(program)),
            None => {
                let (compiled, outcome) = self.create_mesh_program(
                    kind.spec_fragment_shader_source(self.shaders),
                );
                match outcome {
                    Ok(program) => (compiled.store(kind, program), Ok(program)),
                    Err(error) => (self, Err(error)),
                }
            },
        }
    }
}

/// A program is compiled once: asking for the same variant again returns
/// the same program and changes nothing, so nothing is compiled again.
pub proof fn lemma_program_is_shared(context: ContextView, kind: ProgramVariant)
    requires
        context.wf(),
        context.get_or_create(kind).1 is Ok,
    ensures
        context.get_or_create(kind).0.get_or_create(kind) == (
            context.get_or_create(kind).0,
            context.get_or_create(kind).1,
        ),
{
}

/// The cache changes only where it is asked to. Asking for a program
/// leaves the others as they are, cached or not, and so does the coming of a
/// mesh of either family and the going of a mesh that is not the last of the
/// program's family. So a cached program stays cached while a mesh of its
/// family is alive.
pub proof fn lemma_cache_changes_only_where_asked(
    context: ContextView,
    kind: ProgramVariant,
    other: ProgramVariant,
    family: MeshFamily,
)
    requires
        context.wf(),
    ensures
        other != kind ==> context.get_or_create(other).0.cached(kind) == context.cached(kind),
        context.cached(kind) is Some ==> context.get_or_create(kind).0.cached(kind)
            == context.cached(kind),
        context.register(family).cached(kind) == context.cached(kind),
        family != kind.spec_family() || context.cache(family).live > 1 ==> context.release(
            family,
        ).cached(kind) == context.cached(kind),
{
}

/// When the last mesh of a family goes, the programs of the family go with
/// it: none of its variants is cached any more, and each program that was
/// cached is deleted.
pub proof fn lemma_last_release_clears(context: ContextView, kind: ProgramVariant)
    requires
        context.wf(),
        context.cache(kind.spec_family()).live == 1,
    ensures
        context.release(kind.spec_family()).cached(kind) is None,
        context.release(kind.spec_family()).cache(kind.spec_family()).live == 0,
        context.release(kind.spec_family()).wf(),
        context.release(kind.spec_family()).recorded == context.recorded + ContextView::deletions(
            context.cache(kind.spec_family()).programs(),
        ),
        context.cached(kind) is Some ==> ContextView::deletions(
            context.cache(kind.spec_family()).programs(),
        ).contains(CommandView::DeleteProgram { program: context.cached(kind)->0.program }),
{
    let cache = context.cache(kind.spec_family());
    let programs = cache.programs();
    let deletions = ContextView::deletions(programs);
    if context.cached(kind) is Some {
        let program = context.cached(kind)->0;
        let slot = kind.spec_slot();
        let before = if slot == 0 {
            0
        } else {
            held(cache.slots[0]).len() + if slot == 1 {
                0
            } else {
                held(cache.slots[1]).len() + if slot == 2 {
                    0
                } else {
                    held(cache.slots[2]).len()
                }
            }
        };
        assert(programs[before as int] == program);
        assert(deletions[before as int] == CommandView::DeleteProgram {
            program: program.program,
        });
    }
}

/// A program that is not cached is compiled when it is asked for: one
/// program is created, under an identifier that was never used before, from
/// the fragment shader of the variant and the vertex shader that fits it,
/// and is cached from then on.
pub proof fn lemma_absent_program_is_compiled(context: ContextView, kind: ProgramVariant)
    requires
        context.wf(),
        context.cached(kind) is None,
        context.can_allocate(1),
    ensures
        ({
            let (compiled, outcome) = context.get_or_create(kind);
            let source = kind.spec_fragment_shader_source(context.shaders);
            let key = ProgramVariantKey::spec_probe(source);
            let program = Program { id: context.next_id as u64 };
            &&& outcome == Ok::<MeshProgram, Error>(MeshProgram::of_key(program, key))
            &&& compiled.recorded == context.recorded.push(
                CommandView::CreateProgram {
                    program,
                    vertex_shader_source: key.spec_vertex_shader_source(),
                    fragment_shader_source: source,
                },
            )
            &&& compiled.next_id == context.next_id + 1
            &&& compiled.cached(kind) == Some(outcome->Ok_0)
        }),
{
}

/// When the number of live meshes of a family goes from one to zero, its
/// programs are gone: the next time one of them is asked for, which takes a
/// live mesh again, it is compiled afresh.
pub proof fn lemma_compiled_afresh_after_last_release(context: ContextView, kind: ProgramVariant)
    requires
        context.wf(),
        context.cache(kind.spec_family()).live == 1,
        context.can_allocate(1),
    ensures
        ({
            let renewed = context.release(kind.spec_family()).register(kind.spec_family());
            let (compiled, outcome) = renewed.get_or_create(kind);
            &&& renewed.wf()
            &&& renewed.cache(kind.spec_family()).live == 1
            &&& renewed.cached(kind) is None
            &&& outcome is Ok
            &&& outcome->Ok_0.program == Program { id: context.next_id as u64 }
            &&& compiled.recorded.len() == renewed.recorded.len() + 1
            &&& compiled.recorded.last() is CreateProgram
            &&& compiled.recorded.last()->CreateProgram_program == outcome->Ok_0.program
        }),
{
    lemma_last_release_clears(context, kind);
    let renewed = context.release(kind.spec_family()).register(kind.spec_family());
    lemma_absent_program_is_compiled(renewed, kind);
}

impl View for Context {
    type V = ContextView;

    closed spec fn view(&self) -> ContextView {
        ContextView {
            recorded: views(self.commands@),
            next_id: self.next_id as nat,
            shaders: self.shaders@,
            mesh_programs: self.mesh_programs@,
            forward_programs: self.forward_programs@,
        }
    }
}

impl Context {
    /// A context with nothing recorded, no identifier handed out and no
    /// program cached.
    pub fn new(shaders: ShaderSources) -> (context: Context)
        ensures
            context@ == ContextView::new(shaders@),
            context@.wf(),
    {
        let context = Context {
            commands: Vec::new(),
            next_id: 0,
            shaders,
            mesh_programs: VariantCache::new(),
            forward_programs: VariantCache::new(),
        };
        proof {
            assert(context@.recorded =~= Seq::<CommandView>::empty());
        }
        context
    }

    /// A context like a new one, but with the identifiers below `first_id`
    /// left to the host, which may have used them for resources of its own.
    pub fn with_first_id(shaders: ShaderSources, first_id: u64) -> (context: Context)
        ensures
            context@ == ContextView::new(shaders@).allocate(first_id as nat),
            context@.wf(),
    {
        let context = Context {
            commands: Vec::new(),
            next_id: first_id,
            shaders,
            mesh_programs: VariantCache::new(),
            forward_programs: VariantCache::new(),
        };
        proof {
            assert(context@.recorded =~= Seq::<CommandView>::empty());
        }
        context
    }

    /// The commands recorded since the host last took them.
    pub fn commands(&self) -> (commands: &Vec<Command>)
        ensures
            views(commands@) == self@.recorded,
    {
        &self.commands
    }

    /// Hands the recorded commands to the host and starts a new list.
    pub fn take_commands(&mut self) -> (commands: Vec<Command>)
        ensures
            views(commands@) == old(self)@.recorded,
            final(self)@ == (ContextView { recorded: Seq::<CommandView>::empty(), ..old(self)@ }),
    {
        let mut commands: Vec<Command> = Vec::new();
        std::mem::swap(&mut commands, &mut self.commands);
        proof {
            assert(self@.recorded =~= Seq::<CommandView>::empty());
        }
        commands
    }

    /// The shader sources that the host supplied.
    pub fn shaders(&self) -> (shaders: &ShaderSources)
        ensures
            shaders@ == self@.shaders,
    {
        &self.shaders
    }

    /// The number of live meshes of a family.
    pub fn live(&self, family: MeshFamily) -> (live: u64)
        ensures
            live == self@.cache(family).live,
    {
        match family {
            MeshFamily::Mesh => self.mesh_programs.live(),
            MeshFamily::PhongForward => self.forward_programs.live(),
        }
    }

    /// Whether `count` more identifiers can be handed out.
    pub fn can_allocate(&self, count: u64) -> (possible: bool)
        ensures
            possible == self@.can_allocate(count as nat),
    {
        count <= u64::MAX - self.next_id
    }

    /// Hands out the next identifier.
    pub fn fresh_id(&mut self) -> (id: u64)
        requires
            old(self)@.can_allocate(1),
        ensures
            id == old(self)@.next_id,
            final(self)@ == old(self)@.allocate(1),
    {
        let id = self.next_id;
        self.next_id = id + 1;
        id
    }

    /// Appends a command to the recording.
    pub fn record(&mut self, command: Command)
        ensures
            final(self)@ == old(self)@.record(command@),
    {
        proof {
            lemma_views_push(self.commands@, command);
        }
        self.commands.push(command);
    }

    /// The program that the cache holds for a variant, if any.
    pub fn cached(&self, kind: ProgramVariant) -> (program: Option<MeshProgram>)
        requires
            self@.wf(),
        ensures
            program == self@.cached(kind),
    {
        match kind.family() {
            MeshFamily::Mesh => self.mesh_programs.get(kind.slot()),
            MeshFamily::PhongForward => self.forward_programs.get(kind.slot()),
        }
    }

    /// Counts one more live mesh of a family.
    pub fn register(&mut self, family: MeshFamily)
        requires
            old(self)@.wf(),
            old(self)@.cache(family).live < old(self)@.next_id,
        ensures
            final(self)@ == old(self)@.register(family),
            final(self)@.wf(),
    {
        match family {
            MeshFamily::Mesh => self.mesh_programs.register(),
            MeshFamily::PhongForward => self.forward_programs.register(),
        }
    }

    /// Counts one live mesh of a family less. With the last one the programs
    /// of the family are deleted.
    pub fn release(&mut self, family: MeshFamily)
        requires
            old(self)@.wf(),
            old(self)@.cache(family).live > 0,
        ensures
            final(self)@ == old(self)@.release(family),
            final(self)@.wf(),
    {
        let released = match family {
            MeshFamily::Mesh => self.mesh_programs.release(),
            MeshFamily::PhongForward => self.forward_programs.release(),
        };
        let ghost emptied = self@;
        let mut i: usize = 0;
        while i < released.len()
            invariant
                i <= released@.len(),
                self@ == emptied.record_all(ContextView::deletions(released@.take(i as int))),
            decreases released@.len() - i,
        {
            let program = released[i].program;
            self.record(Command::DeleteProgram { program });
            proof {
                assert(ContextView::deletions(released@.take(i + 1)) =~= ContextView::deletions(
                    released@.take(i as int),
                ).push(CommandView::DeleteProgram { program }));
                assert(self@.recorded =~= emptied.recorded + ContextView::deletions(
                    released@.take(i + 1),
                ));
            }
            i += 1;
        }
        proof {
            assert(released@.take(released@.len() as int) =~= released@);
        }
    }

    /// Caches a program for a variant.
    fn store(&mut self, kind: ProgramVariant, program: MeshProgram)
        requires
            old(self)@.wf(),
            old(self)@.cache(kind.spec_family()).live > 0,
        ensures
            final(self)@ == old(self)@.store(kind, program),
            final(self)@.wf(),
    {
        match kind.family() {
            MeshFamily::Mesh => self.mesh_programs.store(kind.slot(), program),
            MeshFamily::PhongForward => self.forward_programs.store(kind.slot(), program),
        }
    }

    /// The program of a variant: the cached one if there is one, else a
    /// newly compiled one, which is cached from then on.
    ///
    /// A mesh of the variant's family must be alive, since programs are kept
    /// only as long as one is. Fails, and changes nothing, if the program has
    /// to be compiled and no identifier is left for it.
    pub fn get_or_create(&mut self, kind: ProgramVariant) -> (result: Result<MeshProgram, Error>)
        requires
            old(self)@.wf(),
            old(self)@.cache(kind.spec_family()).live > 0,
        ensures
            (final(self)@, result) == old(self)@.get_or_create(kind),
            final(self)@.wf(),
    {
        match self.cached(kind) {
            Some(program) => Ok(program),
            None => {
                let source = kind.fragment_shader_source(&self.shaders);
                match MeshProgram::new(self, source.as_str()) {
                    Ok(program) => {
                        self.store(kind, program);
                        Ok(program)
                    },
                    Err(error) => Err(error),
                }
            },
        }
    }
}

} // verus!
