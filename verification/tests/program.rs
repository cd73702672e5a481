use blackhole::program::{
    BuildError, BuildEvent, BuildPhase, BuildRequest, GPUProgram, ProgramBuild, ProgramKind, Stage,
};

fn text(s: &str) -> String {
    String::from(s)
}

fn built(kind: ProgramKind, handle: u32) -> GPUProgram {
    let mut build = ProgramBuild::start(kind);
    let mut shader = 100;
    loop {
        let event = match build.request() {
            BuildRequest::Compile { .. } => {
                shader += 1;
                BuildEvent::Compiled { shader }
            }
            BuildRequest::Link => BuildEvent::Linked { program: handle },
            BuildRequest::ReleaseStage { .. } | BuildRequest::ReleaseProgram { .. } => {
                BuildEvent::Released
            }
            BuildRequest::Finished => break,
        };
        build.advance(event);
    }
    match build.finish() {
        Some(Ok(program)) => program,
        other => panic!("no program: {:?}", other),
    }
}

#[test]
fn stage_tags_name_the_stages() {
    assert_eq!(Stage::Vertex.tag(), "Vertex");
    assert_eq!(Stage::Fragment.tag(), "Fragment");
    assert_eq!(Stage::Compute.tag(), "Compute");
}

#[test]
fn kinds_list_their_stages() {
    assert_eq!(ProgramKind::Raster.stage_count(), 2);
    assert_eq!(ProgramKind::Raster.stage_at(0), Stage::Vertex);
    assert_eq!(ProgramKind::Raster.stage_at(1), Stage::Fragment);
    assert_eq!(ProgramKind::Raster.stage_at(9), Stage::Fragment);
    assert_eq!(ProgramKind::Compute.stage_count(), 1);
    assert_eq!(ProgramKind::Compute.stage_at(0), Stage::Compute);
    assert_eq!(ProgramKind::Compute.stage_at(1), Stage::Compute);
}

#[test]
fn raster_build_compiles_links_and_releases() {
    let mut build = ProgramBuild::raster();
    assert_eq!(build.kind(), ProgramKind::Raster);
    assert_eq!(build.phase(), BuildPhase::Compiling);
    assert_eq!(build.request(), BuildRequest::Compile { stage: Stage::Vertex });
    assert_eq!(
        build.advance(BuildEvent::Compiled { shader: 11 }),
        BuildRequest::Compile { stage: Stage::Fragment }
    );
    assert_eq!(build.advance(BuildEvent::Compiled { shader: 12 }), BuildRequest::Link);
    assert_eq!(build.phase(), BuildPhase::Linking);
    assert_eq!(build.live_stages(), &vec![11, 12]);
    assert_eq!(
        build.advance(BuildEvent::Linked { program: 40 }),
        BuildRequest::ReleaseStage { shader: 12 }
    );
    assert_eq!(build.phase(), BuildPhase::Releasing);
    assert_eq!(build.advance(BuildEvent::Released), BuildRequest::ReleaseStage { shader: 11 });
    assert_eq!(build.advance(BuildEvent::Released), BuildRequest::Finished);
    assert_eq!(build.phase(), BuildPhase::Finished);
    assert!(build.live_stages().is_empty());
    let program = match build.finish() {
        Some(Ok(program)) => program,
        other => panic!("no program: {:?}", other),
    };
    assert_eq!(program.handle(), 40);
    assert_eq!(program.kind(), ProgramKind::Raster);
    assert_eq!(program.release(), 40);
}

#[test]
fn compute_build_has_one_stage() {
    let mut build = ProgramBuild::compute();
    assert_eq!(build.kind(), ProgramKind::Compute);
    assert_eq!(build.request(), BuildRequest::Compile { stage: Stage::Compute });
    assert_eq!(build.advance(BuildEvent::Compiled { shader: 5 }), BuildRequest::Link);
    assert_eq!(
        build.advance(BuildEvent::Linked { program: 6 }),
        BuildRequest::ReleaseStage { shader: 5 }
    );
    assert_eq!(build.advance(BuildEvent::Released), BuildRequest::Finished);
    let program = match build.finish() {
        Some(Ok(program)) => program,
        other => panic!("no program: {:?}", other),
    };
    assert_eq!(program.handle(), 6);
    assert_eq!(program.kind(), ProgramKind::Compute);
}

#[test]
fn invalid_compute_source_gives_a_compile_error() {
    let mut build = ProgramBuild::compute();
    assert_eq!(build.request(), BuildRequest::Compile { stage: Stage::Compute });
    let next = build.advance(BuildEvent::CompileFailed {
        shader: 9,
        diagnostic: text("0:1(1): error: syntax error"),
    });
    assert_eq!(next, BuildRequest::ReleaseStage { shader: 9 });
    assert_eq!(build.advance(BuildEvent::Linked { program: 77 }), next);
    assert_eq!(build.advance(BuildEvent::Released), BuildRequest::Finished);
    assert!(build.live_stages().is_empty());
    match build.finish() {
        Some(Err(BuildError::ShaderCompile { stage, diagnostic })) => {
            assert_eq!(stage, Stage::Compute);
            assert_eq!(stage.tag(), "Compute");
            assert_eq!(diagnostic, "0:1(1): error: syntax error");
        }
        other => panic!("no compile error: {:?}", other),
    }
}

#[test]
fn vertex_failure_skips_the_fragment_stage() {
    let mut build = ProgramBuild::raster();
    let next = build.advance(BuildEvent::CompileFailed { shader: 3, diagnostic: text("bad") });
    assert_eq!(next, BuildRequest::ReleaseStage { shader: 3 });
    assert_eq!(build.advance(BuildEvent::Released), BuildRequest::Finished);
    assert_eq!(
        build.finish(),
        Some(Err(BuildError::ShaderCompile { stage: Stage::Vertex, diagnostic: text("bad") }))
    );
}

#[test]
fn fragment_failure_releases_both_stage_objects() {
    let mut build = ProgramBuild::raster();
    build.advance(BuildEvent::Compiled { shader: 21 });
    let next = build.advance(BuildEvent::CompileFailed { shader: 22, diagnostic: text("worse") });
    assert_eq!(next, BuildRequest::ReleaseStage { shader: 22 });
    assert_eq!(build.live_stages(), &vec![21, 22]);
    assert_eq!(build.advance(BuildEvent::Released), BuildRequest::ReleaseStage { shader: 21 });
    assert_eq!(build.advance(BuildEvent::Released), BuildRequest::Finished);
    assert_eq!(
        build.finish(),
        Some(Err(BuildError::ShaderCompile { stage: Stage::Fragment, diagnostic: text("worse") }))
    );
}

#[test]
fn link_failure_releases_the_program_then_the_stages() {
    let mut build = ProgramBuild::raster();
    build.advance(BuildEvent::Compiled { shader: 1 });
    build.advance(BuildEvent::Compiled { shader: 2 });
    let next = build.advance(BuildEvent::LinkFailed { program: 8, diagnostic: text("unresolved") });
    assert_eq!(next, BuildRequest::ReleaseProgram { program: 8 });
    assert_eq!(build.advance(BuildEvent::Released), BuildRequest::ReleaseStage { shader: 2 });
    assert_eq!(build.advance(BuildEvent::Released), BuildRequest::ReleaseStage { shader: 1 });
    assert_eq!(build.advance(BuildEvent::Released), BuildRequest::Finished);
    assert_eq!(
        build.finish(),
        Some(Err(BuildError::ProgramLink { diagnostic: text("unresolved") }))
    );
}

#[test]
fn reports_out_of_turn_change_nothing() {
    let mut build = ProgramBuild::raster();
    let first = build.request();
    assert_eq!(build.advance(BuildEvent::Released), first);
    assert_eq!(build.advance(BuildEvent::Linked { program: 1 }), first);
    assert_eq!(
        build.advance(BuildEvent::LinkFailed { program: 1, diagnostic: text("x") }),
        first
    );
    assert_eq!(build.phase(), BuildPhase::Compiling);
    assert!(build.live_stages().is_empty());
    build.advance(BuildEvent::Compiled { shader: 1 });
    build.advance(BuildEvent::Compiled { shader: 2 });
    assert_eq!(build.advance(BuildEvent::Compiled { shader: 3 }), BuildRequest::Link);
    assert_eq!(
        build.advance(BuildEvent::CompileFailed { shader: 3, diagnostic: text("x") }),
        BuildRequest::Link
    );
    assert_eq!(build.advance(BuildEvent::Released), BuildRequest::Link);
    assert_eq!(build.live_stages(), &vec![1, 2]);
}

#[test]
fn finished_build_ignores_every_report() {
    let mut build = ProgramBuild::compute();
    build.advance(BuildEvent::Compiled { shader: 5 });
    build.advance(BuildEvent::Linked { program: 6 });
    build.advance(BuildEvent::Released);
    assert_eq!(build.advance(BuildEvent::Released), BuildRequest::Finished);
    assert_eq!(build.advance(BuildEvent::Compiled { shader: 7 }), BuildRequest::Finished);
    assert_eq!(
        build.advance(BuildEvent::LinkFailed { program: 9, diagnostic: text("late") }),
        BuildRequest::Finished
    );
    match build.finish() {
        Some(Ok(program)) => assert_eq!(program.handle(), 6),
        other => panic!("no program: {:?}", other),
    }
}

#[test]
fn unfinished_build_yields_nothing() {
    assert_eq!(ProgramBuild::raster().finish(), None);
    let mut build = ProgramBuild::compute();
    build.advance(BuildEvent::Compiled { shader: 5 });
    assert_eq!(build.finish(), None);
    let mut build = ProgramBuild::compute();
    build.advance(BuildEvent::Compiled { shader: 5 });
    build.advance(BuildEvent::Linked { program: 6 });
    assert_eq!(build.finish(), None);
}

#[test]
fn first_failure_is_the_one_reported() {
    let mut build = ProgramBuild::raster();
    build.advance(BuildEvent::Compiled { shader: 1 });
    build.advance(BuildEvent::CompileFailed { shader: 2, diagnostic: text("first") });
    build.advance(BuildEvent::CompileFailed { shader: 3, diagnostic: text("second") });
    build.advance(BuildEvent::LinkFailed { program: 4, diagnostic: text("third") });
    build.advance(BuildEvent::Released);
    build.advance(BuildEvent::Released);
    assert_eq!(
        build.finish(),
        Some(Err(BuildError::ShaderCompile { stage: Stage::Fragment, diagnostic: text("first") }))
    );
}

#[test]
fn builds_finish_within_their_bound() {
    for kind in [ProgramKind::Raster, ProgramKind::Compute] {
        let bound = 2 * kind.stage_count() + 2;
        let mut build = ProgramBuild::start(kind);
        let mut answered = 0;
        while build.request() != BuildRequest::Finished {
            let event = match build.request() {
                BuildRequest::Compile { .. } => BuildEvent::Compiled { shader: answered as u32 },
                BuildRequest::Link => {
                    BuildEvent::LinkFailed { program: 50, diagnostic: text("no") }
                }
                _ => BuildEvent::Released,
            };
            build.advance(event);
            answered += 1;
            assert!(answered <= bound);
        }
        assert_eq!(answered, bound);
    }
}

#[test]
fn helper_builds_programs_of_both_kinds() {
    assert_eq!(built(ProgramKind::Raster, 3).kind(), ProgramKind::Raster);
    assert_eq!(built(ProgramKind::Compute, 4).handle(), 4);
}
