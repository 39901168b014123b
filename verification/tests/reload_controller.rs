use sdf_surfer::event::WatchEvent;
use sdf_surfer::reload::{ReloadAction, ReloadEffect, ShaderReloadController};

fn frag_controller(active: u32) -> ShaderReloadController<u32> {
    ShaderReloadController::new(active, Some(String::from("frag")))
}

/// A compiler stand-in that counts how often it is run and accepts every
/// source that holds the word `void`.
struct CountingCompiler {
    runs: u32,
    next_material: u32,
}

impl CountingCompiler {
    fn compile(&mut self, source: &str) -> Result<u32, String> {
        self.runs += 1;
        if source.contains("void") {
            self.next_material += 1;
            Ok(self.next_material)
        } else {
            Err(String::from("shader.frag:1: error: syntax error"))
        }
    }
}

/// One frame of a host: hands the event in, compiles where asked to, and
/// returns the materials it released and the lines it logged.
fn run_frame(
    controller: &mut ShaderReloadController<u32>,
    compiler: &mut CountingCompiler,
    event: Option<WatchEvent>,
    is_regular_file: bool,
    source: &str,
) -> (Vec<u32>, Vec<String>) {
    let mut released = Vec::new();
    let mut log = Vec::new();
    assert!(controller.is_idle());
    match controller.on_event(event, is_regular_file) {
        ReloadAction::Skip => {}
        ReloadAction::Compile(path) => {
            assert!(controller.is_reloading());
            match controller.on_compiled(compiler.compile(source)) {
                ReloadEffect::Swapped { retired, path: loaded } => {
                    assert_eq!(loaded, path);
                    released.push(retired);
                    log.push(format!("Loaded {:?}", loaded));
                }
                ReloadEffect::Rejected { diagnostic } => {
                    log.push(format!("ERROR: {}", diagnostic));
                }
            }
        }
    }
    assert!(controller.is_idle());
    (released, log)
}

#[test]
fn new_controller_is_idle_with_the_given_material() {
    let c = frag_controller(7);
    assert_eq!(*c.active(), 7);
    assert!(c.is_idle());
    assert!(!c.is_reloading());
    assert_eq!(*c.wanted_extension(), Some(String::from("frag")));
}

#[test]
fn modified_shader_file_starts_a_reload() {
    let mut c = frag_controller(1);
    let action = c.on_event(Some(WatchEvent::Modified(String::from("shader.frag"))), true);
    assert_eq!(action, ReloadAction::Compile(String::from("shader.frag")));
    assert!(c.is_reloading());
    assert_eq!(*c.active(), 1);
}

#[test]
fn created_shader_file_starts_a_reload() {
    let mut c = frag_controller(1);
    let action = c.on_event(Some(WatchEvent::Created(String::from("shaders/sky.frag"))), true);
    assert_eq!(action, ReloadAction::Compile(String::from("shaders/sky.frag")));
    assert!(c.is_reloading());
}

#[test]
fn valid_source_swaps_and_retires_the_old_material_once() {
    let mut c = frag_controller(10);
    let mut compiler = CountingCompiler { runs: 0, next_material: 10 };
    let (released, log) = run_frame(
        &mut c,
        &mut compiler,
        Some(WatchEvent::Modified(String::from("shader.frag"))),
        true,
        "void main() {}",
    );
    assert_eq!(*c.active(), 11);
    assert_eq!(released, vec![10]);
    assert_eq!(log, vec![String::from("Loaded \"shader.frag\"")]);
    assert_eq!(compiler.runs, 1);
}

#[test]
fn invalid_source_keeps_the_material_and_reports() {
    let mut c = frag_controller(10);
    let mut compiler = CountingCompiler { runs: 0, next_material: 10 };
    let before = *c.active();
    let (released, log) = run_frame(
        &mut c,
        &mut compiler,
        Some(WatchEvent::Modified(String::from("shader.frag"))),
        true,
        "this is not a shader",
    );
    assert_eq!(*c.active(), before);
    assert!(released.is_empty());
    assert_eq!(log, vec![String::from("ERROR: shader.frag:1: error: syntax error")]);
    assert_eq!(compiler.runs, 1);
}

#[test]
fn other_extension_is_never_compiled() {
    let mut c = frag_controller(10);
    let mut compiler = CountingCompiler { runs: 0, next_material: 10 };
    let (released, log) = run_frame(
        &mut c,
        &mut compiler,
        Some(WatchEvent::Created(String::from("notes.txt"))),
        true,
        "void main() {}",
    );
    assert_eq!(compiler.runs, 0);
    assert_eq!(*c.active(), 10);
    assert!(released.is_empty());
    assert!(log.is_empty());
}

#[test]
fn removal_is_ignored() {
    let mut c = frag_controller(3);
    let action = c.on_event(Some(WatchEvent::Removed(String::from("shader.frag"))), true);
    assert_eq!(action, ReloadAction::Skip);
    assert!(c.is_idle());
    assert_eq!(*c.active(), 3);
}

#[test]
fn other_events_and_empty_queue_are_ignored() {
    let mut c = frag_controller(3);
    assert_eq!(c.on_event(Some(WatchEvent::Other), true), ReloadAction::Skip);
    assert_eq!(c.on_event(None, true), ReloadAction::Skip);
    assert_eq!(c.on_event(None, false), ReloadAction::Skip);
    assert!(c.is_idle());
    assert_eq!(*c.active(), 3);
}

#[test]
fn path_that_is_no_regular_file_is_ignored() {
    let mut c = frag_controller(3);
    let action = c.on_event(Some(WatchEvent::Created(String::from("shader.frag"))), false);
    assert_eq!(action, ReloadAction::Skip);
    assert!(c.is_idle());
}

#[test]
fn extension_is_compared_exactly() {
    for path in ["shader.FRAG", "shader.fra", "shader.frag2", "shader.frag.bak", "frag", "shader"] {
        let mut c = frag_controller(3);
        let action = c.on_event(Some(WatchEvent::Modified(String::from(path))), true);
        assert_eq!(action, ReloadAction::Skip, "{}", path);
        assert!(c.is_idle());
    }
}

#[test]
fn hidden_file_without_extension_is_ignored() {
    let mut c = frag_controller(3);
    let action = c.on_event(Some(WatchEvent::Modified(String::from(".frag"))), true);
    assert_eq!(action, ReloadAction::Skip);
}

#[test]
fn extension_is_that_of_the_file_name() {
    let mut c = frag_controller(3);
    let action = c.on_event(Some(WatchEvent::Modified(String::from("a.frag/notes.txt"))), true);
    assert_eq!(action, ReloadAction::Skip);
    let action = c.on_event(Some(WatchEvent::Modified(String::from("a.txt/sky.v2.frag"))), true);
    assert_eq!(action, ReloadAction::Compile(String::from("a.txt/sky.v2.frag")));
}

#[test]
fn controller_without_extension_reloads_nothing() {
    let mut c: ShaderReloadController<u32> = ShaderReloadController::new(5, None);
    assert_eq!(*c.wanted_extension(), None);
    assert_eq!(
        c.on_event(Some(WatchEvent::Modified(String::from("shader.frag"))), true),
        ReloadAction::Skip
    );
    assert_eq!(
        c.on_event(Some(WatchEvent::Modified(String::from("shader"))), true),
        ReloadAction::Skip
    );
    assert_eq!(
        c.on_classified_event(Some(WatchEvent::Modified(String::from("shader"))), true, None),
        ReloadAction::Skip
    );
}

#[test]
fn controller_follows_the_configured_extension() {
    let mut c: ShaderReloadController<u32> = ShaderReloadController::new(5, Some(String::from("glsl")));
    assert_eq!(
        c.on_event(Some(WatchEvent::Modified(String::from("shader.frag"))), true),
        ReloadAction::Skip
    );
    assert_eq!(
        c.on_event(Some(WatchEvent::Modified(String::from("shader.glsl"))), true),
        ReloadAction::Compile(String::from("shader.glsl"))
    );
}

#[test]
fn classified_event_goes_by_the_extension_it_is_given() {
    let mut c = frag_controller(1);
    let action = c.on_classified_event(
        Some(WatchEvent::Created(String::from("anything"))),
        true,
        Some(String::from("frag")),
    );
    assert_eq!(action, ReloadAction::Compile(String::from("anything")));

    let mut c = frag_controller(1);
    let action = c.on_classified_event(
        Some(WatchEvent::Created(String::from("shader.frag"))),
        true,
        Some(String::from("txt")),
    );
    assert_eq!(action, ReloadAction::Skip);

    let mut c = frag_controller(1);
    let action = c.on_classified_event(
        Some(WatchEvent::Created(String::from("shader.frag"))),
        false,
        Some(String::from("frag")),
    );
    assert_eq!(action, ReloadAction::Skip);

    let mut c = frag_controller(1);
    let action = c.on_classified_event(
        Some(WatchEvent::Removed(String::from("shader.frag"))),
        true,
        Some(String::from("frag")),
    );
    assert_eq!(action, ReloadAction::Skip);

    let mut c = frag_controller(1);
    let action = c.on_classified_event(None, true, Some(String::from("frag")));
    assert_eq!(action, ReloadAction::Skip);
}

#[test]
fn outcome_with_material_gives_swapped() {
    let mut c = frag_controller(40);
    c.on_event(Some(WatchEvent::Modified(String::from("d/shader.frag"))), true);
    let effect = c.on_compiled(Ok(41));
    assert_eq!(effect, ReloadEffect::Swapped { retired: 40, path: String::from("d/shader.frag") });
    assert_eq!(*c.active(), 41);
    assert!(c.is_idle());
}

#[test]
fn outcome_with_error_gives_rejected_verbatim() {
    let mut c = frag_controller(40);
    c.on_event(Some(WatchEvent::Modified(String::from("d/shader.frag"))), true);
    let effect = c.on_compiled(Err(String::from("  line 3:\n\tunexpected token ")));
    assert_eq!(
        effect,
        ReloadEffect::Rejected { diagnostic: String::from("  line 3:\n\tunexpected token ") }
    );
    assert_eq!(*c.active(), 40);
    assert!(c.is_idle());
}

#[test]
fn many_frames_retire_each_material_once_and_in_order() {
    let mut c = frag_controller(100);
    let mut compiler = CountingCompiler { runs: 0, next_material: 100 };
    let frames: Vec<(Option<WatchEvent>, bool, &str)> = vec![
        (None, false, ""),
        (Some(WatchEvent::Modified(String::from("shader.frag"))), true, "void main() {}"),
        (Some(WatchEvent::Created(String::from("notes.txt"))), true, "void main() {}"),
        (Some(WatchEvent::Modified(String::from("shader.frag"))), true, "broken"),
        (Some(WatchEvent::Removed(String::from("shader.frag"))), false, ""),
        (Some(WatchEvent::Created(String::from("other.frag"))), true, "void main() { }"),
        (Some(WatchEvent::Other), false, ""),
        (Some(WatchEvent::Modified(String::from("other.frag"))), true, "void main() {  }"),
    ];
    let mut released = Vec::new();
    let mut installed = Vec::new();
    for (event, is_file, source) in frames {
        let before = *c.active();
        let (r, _) = run_frame(&mut c, &mut compiler, event, is_file, source);
        if *c.active() != before {
            installed.push(*c.active());
        }
        assert!(!released.contains(c.active()));
        released.extend(r);
        assert!(!released.contains(c.active()));
    }
    assert_eq!(installed, vec![101, 102, 103]);
    assert_eq!(released, vec![100, 101, 102]);
    assert_eq!(*c.active(), 103);
    assert_eq!(compiler.runs, 4);
    let mut history = released.clone();
    history.push(*c.active());
    let mut expected = vec![100];
    expected.extend(installed);
    assert_eq!(history, expected);
}

#[test]
fn candidate_path_is_that_of_creations_and_modifications() {
    let p = String::from("a/b.frag");
    assert_eq!(WatchEvent::Created(p.clone()).candidate_path(), Some(&p));
    assert_eq!(WatchEvent::Modified(p.clone()).candidate_path(), Some(&p));
    assert_eq!(WatchEvent::Removed(p.clone()).candidate_path(), None);
    assert_eq!(WatchEvent::Other.candidate_path(), None);
    assert_eq!(WatchEvent::Created(p.clone()).into_candidate(), Some(p.clone()));
    assert_eq!(WatchEvent::Modified(p.clone()).into_candidate(), Some(p.clone()));
    assert_eq!(WatchEvent::Removed(p.clone()).into_candidate(), None);
    assert_eq!(WatchEvent::Other.into_candidate(), None);
}

#[test]
fn empty_extension_is_an_extension() {
    let mut c: ShaderReloadController<u32> = ShaderReloadController::new(5, Some(String::new()));
    assert_eq!(
        c.on_event(Some(WatchEvent::Modified(String::from("shader."))), true),
        ReloadAction::Compile(String::from("shader."))
    );
    let mut c: ShaderReloadController<u32> = ShaderReloadController::new(5, Some(String::new()));
    assert_eq!(
        c.on_event(Some(WatchEvent::Modified(String::from("shader"))), true),
        ReloadAction::Skip
    );
}

#[test]
fn reload_failure_does_not_stop_later_reloads() {
    let mut c = frag_controller(1);
    let mut compiler = CountingCompiler { runs: 0, next_material: 1 };
    let event = || Some(WatchEvent::Modified(String::from("shader.frag")));
    let (released, log) = run_frame(&mut c, &mut compiler, event(), true, "broken");
    assert!(released.is_empty());
    assert_eq!(log.len(), 1);
    assert_eq!(*c.active(), 1);
    let (released, log) = run_frame(&mut c, &mut compiler, event(), true, "void main() {}");
    assert_eq!(released, vec![1]);
    assert_eq!(log, vec![String::from("Loaded \"shader.frag\"")]);
    assert_eq!(*c.active(), 2);
}

#[test]
fn material_handles_need_not_be_numbers() {
    let mut c: ShaderReloadController<String> =
        ShaderReloadController::new(String::from("first"), Some(String::from("frag")));
    c.on_event(Some(WatchEvent::Created(String::from("a.frag"))), true);
    let effect = c.on_compiled(Ok(String::from("second")));
    assert_eq!(
        effect,
        ReloadEffect::Swapped { retired: String::from("first"), path: String::from("a.frag") }
    );
    assert_eq!(c.active(), "second");
}

#[test]
fn state_names_the_path_being_compiled() {
    let mut c = frag_controller(1);
    assert_eq!(*c.state(), sdf_surfer::reload::ReloadState::Idle);
    c.on_event(Some(WatchEvent::Modified(String::from("shader.frag"))), true);
    assert_eq!(
        *c.state(),
        sdf_surfer::reload::ReloadState::Reloading(String::from("shader.frag"))
    );
    c.on_compiled(Err(String::from("no")));
    assert_eq!(*c.state(), sdf_surfer::reload::ReloadState::Idle);
}
