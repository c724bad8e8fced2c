use vstd::prelude::*;
use crate::phase::{decide_startup, name_view, startup_for, ApiVersion, PhaseSet, Startup};

verus! {

/// Errors of the runtime itself, plus the buildpack's own error.
/// Each runtime variant carries a human-readable cause.
#[derive(Debug)]
pub enum RuntimeError<E> {
    CannotDetermineAppDirectory(String),
    CannotDetermineStackId(String),
    CannotCreatePlatformFromPath(String),
    CannotDetermineBuildpackDirectory(String),
    CannotReadBuildpackDescriptor(String),
    CannotReadBuildpackPlan(String),
    CannotWriteBuildPlan(String),
    CannotWriteTestResults(String),
    BuildpackError(E),
}

/// The buildpack descriptor (`buildpack.toml`), with buildpack-specific metadata.
#[derive(Debug)]
pub struct BuildpackDescriptor<BM> {
    pub api: ApiVersion,
    pub name: String,
    pub metadata: BM,
}

/// Context for a buildpack's detect phase.
pub struct DetectContext<P, BM> {
    pub app_dir: String,
    pub buildpack_dir: String,
    pub stack_id: String,
    pub platform: P,
    pub buildpack_descriptor: BuildpackDescriptor<BM>,
}

/// Context for a buildpack's build phase.
pub struct BuildContext<P, BM, BP> {
    pub layers_dir: String,
    pub app_dir: String,
    pub buildpack_dir: String,
    pub stack_id: String,
    pub platform: P,
    pub buildpack_plan: BP,
    pub buildpack_descriptor: BuildpackDescriptor<BM>,
}

/// Context for a buildpack's test phase.
pub struct TestContext<P, BM> {
    pub layers_dir: String,
    pub app_dir: String,
    pub buildpack_dir: String,
    pub stack_id: String,
    pub platform: P,
    pub buildpack_descriptor: BuildpackDescriptor<BM>,
}

/// Context for a buildpack's publish phase.
pub struct PublishContext<P, BM> {
    pub app_dir: String,
    pub buildpack_dir: String,
    pub stack_id: String,
    pub platform: P,
    pub buildpack_descriptor: BuildpackDescriptor<BM>,
}

/// What each source of a context yielded, each failure given as its cause.
/// The sources are consulted in field order.
pub struct ContextSources<P, BM> {
    pub app_dir: Result<String, String>,
    pub stack_id: Result<String, String>,
    pub platform: Result<P, String>,
    pub buildpack_dir: Result<String, String>,
    pub buildpack_descriptor: Result<BuildpackDescriptor<BM>, String>,
}

/// The error for the first failed source, in the order of assembly.
pub open spec fn first_failure<P, BM, E>(s: ContextSources<P, BM>) -> Option<RuntimeError<E>> {
    if s.app_dir is Err {
        Some(RuntimeError::CannotDetermineAppDirectory(s.app_dir->Err_0))
    } else if s.stack_id is Err {
        Some(RuntimeError::CannotDetermineStackId(s.stack_id->Err_0))
    } else if s.platform is Err {
        Some(RuntimeError::CannotCreatePlatformFromPath(s.platform->Err_0))
    } else if s.buildpack_dir is Err {
        Some(RuntimeError::CannotDetermineBuildpackDirectory(s.buildpack_dir->Err_0))
    } else if s.buildpack_descriptor is Err {
        Some(RuntimeError::CannotReadBuildpackDescriptor(s.buildpack_descriptor->Err_0))
    } else {
        None
    }
}

/// The parts common to every phase's context.
pub struct CommonContext<P, BM> {
    pub app_dir: String,
    pub buildpack_dir: String,
    pub stack_id: String,
    pub platform: P,
    pub buildpack_descriptor: BuildpackDescriptor<BM>,
}

/// `c` holds exactly the values the sources yielded.
pub open spec fn common_from<P, BM>(c: CommonContext<P, BM>, s: ContextSources<P, BM>) -> bool {
    &&& s.app_dir == Ok::<String, String>(c.app_dir)
    &&& s.stack_id == Ok::<String, String>(c.stack_id)
    &&& s.platform == Ok::<P, String>(c.platform)
    &&& s.buildpack_dir == Ok::<String, String>(c.buildpack_dir)
    &&& s.buildpack_descriptor == Ok::<BuildpackDescriptor<BM>, String>(c.buildpack_descriptor)
}

/// Assembles the common context, failing with the first source that failed.
pub fn assemble_common<P, BM, E>(s: ContextSources<P, BM>) -> (r: Result<CommonContext<P, BM>, RuntimeError<E>>)
    ensures
        match first_failure::<P, BM, E>(s) {
            Some(e) => r == Err::<CommonContext<P, BM>, RuntimeError<E>>(e),
            None => r matches Ok(c) && common_from(c, s),
        },
{
    let app_dir = match s.app_dir {
        Ok(v) => v,
        Err(c) => return Err(RuntimeError::CannotDetermineAppDirectory(c)),
    };
    let stack_id = match s.stack_id {
        Ok(v) => v,
        Err(c) => return Err(RuntimeError::CannotDetermineStackId(c)),
    };
    let platform = match s.platform {
        Ok(v) => v,
        Err(c) => return Err(RuntimeError::CannotCreatePlatformFromPath(c)),
    };
    let buildpack_dir = match s.buildpack_dir {
        Ok(v) => v,
        Err(c) => return Err(RuntimeError::CannotDetermineBuildpackDirectory(c)),
    };
    let buildpack_descriptor = match s.buildpack_descriptor {
        Ok(v) => v,
        Err(c) => return Err(RuntimeError::CannotReadBuildpackDescriptor(c)),
    };
    Ok(CommonContext { app_dir, buildpack_dir, stack_id, platform, buildpack_descriptor })
}

/// Detect context from its sources; no partial context on failure.
pub fn assemble_detect<P, BM, E>(s: ContextSources<P, BM>) -> (r: Result<DetectContext<P, BM>, RuntimeError<E>>)
    ensures
        match first_failure::<P, BM, E>(s) {
            Some(e) => r == Err::<DetectContext<P, BM>, RuntimeError<E>>(e),
            None => r matches Ok(c) && common_from(
                CommonContext {
                    app_dir: c.app_dir,
                    buildpack_dir: c.buildpack_dir,
                    stack_id: c.stack_id,
                    platform: c.platform,
                    buildpack_descriptor: c.buildpack_descriptor,
                },
                s,
            ),
        },
{
    let c = assemble_common(s)?;
    Ok(
        DetectContext {
            app_dir: c.app_dir,
            buildpack_dir: c.buildpack_dir,
            stack_id: c.stack_id,
            platform: c.platform,
            buildpack_descriptor: c.buildpack_descriptor,
        },
    )
}

/// Build context from its sources and the buildpack plan, which is read last.
pub fn assemble_build<P, BM, BP, E>(layers_dir: String, s: ContextSources<P, BM>, plan: Result<BP, String>) -> (r: Result<
    BuildContext<P, BM, BP>,
    RuntimeError<E>,
>)
    ensures
        match first_failure::<P, BM, E>(s) {
            Some(e) => r == Err::<BuildContext<P, BM, BP>, RuntimeError<E>>(e),
            None => match plan {
                Err(cause) => r == Err::<BuildContext<P, BM, BP>, RuntimeError<E>>(
                    RuntimeError::CannotReadBuildpackPlan(cause),
                ),
                Ok(bp) => r matches Ok(c) && c.layers_dir == layers_dir && c.buildpack_plan == bp
                    && common_from(
                    CommonContext {
                        app_dir: c.app_dir,
                        buildpack_dir: c.buildpack_dir,
                        stack_id: c.stack_id,
                        platform: c.platform,
                        buildpack_descriptor: c.buildpack_descriptor,
                    },
                    s,
                ),
            },
        },
{
    let c = assemble_common(s)?;
    let buildpack_plan = match plan {
        Ok(v) => v,
        Err(cause) => return Err(RuntimeError::CannotReadBuildpackPlan(cause)),
    };
    Ok(
        BuildContext {
            layers_dir,
            app_dir: c.app_dir,
            buildpack_dir: c.buildpack_dir,
            stack_id: c.stack_id,
            platform: c.platform,
            buildpack_plan,
            buildpack_descriptor: c.buildpack_descriptor,
        },
    )
}

/// Test context from its sources.
pub fn assemble_test<P, BM, E>(layers_dir: String, s: ContextSources<P, BM>) -> (r: Result<
    TestContext<P, BM>,
    RuntimeError<E>,
>)
    ensures
        match first_failure::<P, BM, E>(s) {
            Some(e) => r == Err::<TestContext<P, BM>, RuntimeError<E>>(e),
            None => r matches Ok(c) && c.layers_dir == layers_dir && common_from(
                CommonContext {
                    app_dir: c.app_dir,
                    buildpack_dir: c.buildpack_dir,
                    stack_id: c.stack_id,
                    platform: c.platform,
                    buildpack_descriptor: c.buildpack_descriptor,
                },
                s,
            ),
        },
{
    let c = assemble_common(s)?;
    Ok(
        TestContext {
            layers_dir,
            app_dir: c.app_dir,
            buildpack_dir: c.buildpack_dir,
            stack_id: c.stack_id,
            platform: c.platform,
            buildpack_descriptor: c.buildpack_descriptor,
        },
    )
}

/// Publish context from its sources.
pub fn assemble_publish<P, BM, E>(s: ContextSources<P, BM>) -> (r: Result<PublishContext<P, BM>, RuntimeError<E>>)
    ensures
        match first_failure::<P, BM, E>(s) {
            Some(e) => r == Err::<PublishContext<P, BM>, RuntimeError<E>>(e),
            None => r matches Ok(c) && common_from(
                CommonContext {
                    app_dir: c.app_dir,
                    buildpack_dir: c.buildpack_dir,
                    stack_id: c.stack_id,
                    platform: c.platform,
                    buildpack_descriptor: c.buildpack_descriptor,
                },
                s,
            ),
        },
{
    let c = assemble_common(s)?;
    Ok(
        PublishContext {
            app_dir: c.app_dir,
            buildpack_dir: c.buildpack_dir,
            stack_id: c.stack_id,
            platform: c.platform,
            buildpack_descriptor: c.buildpack_descriptor,
        },
    )
}

/// The first step of every run: a descriptor that could not be loaded goes to
/// the error handler before anything else; a loaded one is kept, and its API
/// version decides the start.
pub fn start<BM, E>(set: PhaseSet, loaded: Result<BuildpackDescriptor<BM>, RuntimeError<E>>, name: Option<&str>, args: &Vec<String>) -> (r: Result<
    (Startup, BuildpackDescriptor<BM>),
    RuntimeError<E>,
>)
    ensures
        match loaded {
            Err(e) => r == Err::<(Startup, BuildpackDescriptor<BM>), RuntimeError<E>>(e),
            Ok(d) => r matches Ok((s, d2)) && d2 == d && startup_for(set, d.api, name_view(name), args@, s),
        },
{
    match loaded {
        Err(e) => Err(e),
        Ok(d) => {
            let s = decide_startup(set, d.api, name, args);
            Ok((s, d))
        },
    }
}

} // verus!
