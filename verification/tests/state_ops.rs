use vvvf_sound::app_action::AppAction;
use vvvf_sound::app_action::AppActionFlags;
use vvvf_sound::audio_entry::AudioEntry;
use vvvf_sound::audio_entry::AudioEntryError;
use vvvf_sound::audio_entry::AudioFunctionMode;
use vvvf_sound::audio_entry::AudioFunctions;
use vvvf_sound::audio_entry::SoundType;
use vvvf_sound::editable_func::EditableFunc;
use vvvf_sound::file_registory::FileRegistory;
use vvvf_sound::editable_func::EditableFuncMode;
use vvvf_sound::player_state::PlayerState;
use vvvf_sound::project_state::State;
use vvvf_sound::saved::SavedError;
use vvvf_sound::saved::SavedFunction;
use vvvf_sound::selection_cursor::SelectionCursor;
use vvvf_sound::train_performance::TrainPerformance;
use vvvf_sound::ui_function_edit::UiFunctionEdit;
use vvvf_sound::wrappers::EditablePositiveFunc;
use vvvf_sound::wrappers::EditableZeroOneFunc;

#[test]
fn audio_function_mode_accessors() {
    let common = AudioFunctionMode::Common(AudioFunctions::default());
    assert!(common.is_common());
    assert!(!common.is_separate());
    assert!(common.accel().is_some());
    assert!(common.brake().is_some());
    let accel_only = common.to_accel_only();
    assert!(accel_only.is_accel_only());
    assert!(accel_only.brake().is_none());
    assert!(accel_only.get_by_type(SoundType::Accel).is_some());
    assert!(accel_only.get_by_type(SoundType::Brake).is_none());
    let separate = accel_only.to_separate();
    assert!(separate.is_separate());
    assert!(separate.accel().is_some() && separate.brake().is_some());
    let brake_only = separate.to_brake_only();
    assert!(brake_only.is_brake_only());
    assert!(brake_only.accel().is_none());
    assert_eq!(common.label_text(), "Common");
    assert_eq!(separate.label_text(), "Separate");
    assert_eq!(accel_only.label_text(), "Accel Only");
    assert_eq!(brake_only.label_text(), "Brake Only");
}

#[test]
fn entry_name_is_file_stem() {
    let e = AudioEntry::with_path(3, String::from("sounds/run4.ogg")).unwrap();
    assert_eq!(e.name().as_str(), "run4");
    assert_eq!(*e.id(), 3);
    let e = AudioEntry::with_path(4, String::from("a.b\\motor.noise.ogg")).unwrap();
    assert_eq!(e.name().as_str(), "motor.noise");
    let e = AudioEntry::with_path(5, String::from("dir/.bashrc")).unwrap();
    assert_eq!(e.name().as_str(), ".bashrc");
    let r = AudioEntry::with_path(6, String::from("dir/"));
    assert_eq!(r.err(), Some(AudioEntryError::NoName));
}

#[test]
fn entry_funcs_by_type() {
    let mut e = AudioEntry::new(1, "motor");
    assert!(e.funcs_by_type(SoundType::Accel).is_some());
    let brake_only = e.mode().to_brake_only();
    *e.mode_mut() = brake_only;
    assert!(e.funcs_by_type(SoundType::Accel).is_none());
    assert!(e.funcs_by_type_mut(SoundType::Brake).is_some());
}

#[test]
fn state_add_move_remove() {
    let mut s = State::default();
    s.add_audio_entry(0, "a");
    s.add_audio_entry(1, "b");
    s.add_audio_entry(2, "c");
    s.move_audio_entry(0, 2);
    let names: Vec<&str> = s.audio_entries.iter().map(|e| e.name().as_str()).collect();
    assert_eq!(names, vec!["b", "c", "a"]);
    let removed = s.remove_audio_entry(1);
    assert_eq!(removed.name().as_str(), "c");
    s.clear_audio_entries();
    assert!(s.audio_entries.is_empty());
}

#[test]
fn app_action_flags_and_modals() {
    let mut a = AppAction::default();
    a.new_frame(true, false);
    assert!(a.has_undo());
    assert!(!a.has_redo());
    a.save();
    a.undo();
    let f = a.take_flags();
    assert!(f.save && f.undo && !f.open);
    let f2 = a.take_flags();
    assert!(!f2.save && !f2.undo);

    a.add_error_modal(String::from("file not readable"));
    assert_eq!(a.errors().len(), 1);
    a.clear_errors();
    assert!(a.errors().is_empty());

    let confirmed = AppActionFlags { new_project_confirmed: true, ..AppActionFlags::default() };
    a.add_confirmation_modal(String::from("discard unsaved changes?"), confirmed);
    assert!(a.front_confirmation().is_some());
    a.confirm_front();
    assert!(a.front_confirmation().is_none());
    assert!(a.take_flags().new_project_confirmed);

    a.add_confirmation_modal(String::from("discard unsaved changes?"), confirmed);
    a.dismiss_front();
    assert!(!a.take_flags().new_project_confirmed);
}

#[test]
fn player_state_check_clamps_and_picks_sound() {
    let tp = TrainPerformance::default();
    let mut p = PlayerState::default();
    p.check(&tp);
    // i32::MIN clamps to the brake floor and selects the brake sound.
    assert_eq!(p.master_controller, -(tp.brake_steps as i32));
    assert_eq!(p.sound_type, SoundType::Brake);
    p.master_controller = 99;
    p.check(&tp);
    assert_eq!(p.master_controller, tp.power_steps as i32);
    assert_eq!(p.sound_type, SoundType::Accel);
    p.master_controller = 0;
    p.check(&tp);
    // Idle keeps the previous sound type.
    assert_eq!(p.sound_type, SoundType::Accel);
    p.master_controller = 2;
    p.step_toward_idle();
    assert_eq!(p.master_controller, 1);
    p.master_controller = -3;
    p.step_toward_idle();
    assert_eq!(p.master_controller, -2);
}

#[test]
fn selection_cursor_range_ordering() {
    let mut c = SelectionCursor::default();
    assert_eq!(c.range(), None);
    c.set_spot(5);
    assert_eq!(c.range(), Some((5, 5)));
    c.extend(2);
    assert_eq!(c.range(), Some((2, 5)));
    c.extend(9);
    assert_eq!(c.range(), Some((5, 9)));
}

#[test]
fn ui_function_edit_builder() {
    let _cfg = UiFunctionEdit::new("Volume", ("Speed", "Gain")).y_percentage(true);
    let _cfg2 = UiFunctionEdit::new("Pitch", ("Speed", "Ratio")).x_percentage(true);
}

#[test]
fn saved_function_round_trip_is_exact() {
    let mut f = EditableFunc::with_points(vec![(0, 0), (10, 1), (30, 5)]);
    *f.expression_mut() = String::from("x/500");
    let saved = f.to_saved();
    let g = EditableFunc::from_saved(saved).unwrap();
    assert_eq!(g.points().unwrap(), f.points().unwrap());
    assert_eq!(*g.mode(), *f.mode());
    assert_eq!(g.expression_text(), f.expression_text());
    // Re-evaluation at the same positions is bit-exact.
    for x in [-7, 0, 3, 10, 15, 30, 99] {
        assert_eq!(g.value_at(x), f.value_at(x));
    }
}

#[test]
fn saved_entry_round_trip_keeps_curves() {
    let mut e = AudioEntry::new(7, "motor");
    let separate = e.mode().to_separate();
    *e.mode_mut() = separate;
    let saved = e.to_saved();
    let g = AudioEntry::from_saved(7, saved).unwrap();
    assert_eq!(g.name().as_str(), "motor");
    assert!(g.mode().is_separate());
    let ef = e.funcs_by_type(SoundType::Accel).unwrap();
    let gf = g.funcs_by_type(SoundType::Accel).unwrap();
    assert_eq!(gf.volume.points().unwrap(), ef.volume.points().unwrap());
    assert_eq!(gf.pitch.points().unwrap(), ef.pitch.points().unwrap());
}

#[test]
fn saved_function_errors() {
    let empty = SavedFunction {
        mode: EditableFuncMode::Points,
        points: vec![],
        expression: String::new(),
    };
    assert_eq!(EditableFunc::from_saved(empty).err(), Some(SavedError::Empty));
    let unsorted = SavedFunction {
        mode: EditableFuncMode::Points,
        points: vec![(10, 0), (0, 0)],
        expression: String::new(),
    };
    assert_eq!(EditableFunc::from_saved(unsorted).err(), Some(SavedError::Unsorted));
    let huge = SavedFunction {
        mode: EditableFuncMode::Points,
        points: vec![(i64::MAX, 0)],
        expression: String::new(),
    };
    assert_eq!(EditableFunc::from_saved(huge).err(), Some(SavedError::OutOfRange));
    let negative_volume = SavedFunction {
        mode: EditableFuncMode::Points,
        points: vec![(0, -5)],
        expression: String::new(),
    };
    assert_eq!(
        EditableZeroOneFunc::from_saved(negative_volume).err(),
        Some(SavedError::OutOfRegion)
    );
}

#[test]
fn zero_one_clamps_inserted_points() {
    let unit = vvvf_sound::UNIT;
    let mut v = EditableZeroOneFunc::new(EditableFunc::with_points(vec![(0, 0)]));
    let (_, stored) = v.insert_point((-5, 3 * unit));
    assert_eq!(stored, (0, unit));
    let mut p = EditablePositiveFunc::new(EditableFunc::with_points(vec![(0, 0)]));
    let (_, stored) = p.insert_point((7, -9));
    assert_eq!(stored, (7, 0));
}

#[test]
fn train_performance_default_parses() {
    let mut tp = TrainPerformance::default();
    tp.update();
    assert_eq!(tp.power_steps, 5);
    assert_eq!(tp.brake_steps, 8);
}

#[test]
fn registry_tracks_files_and_entries() {
    let mut reg = FileRegistory::default();
    let mut s = State::default();
    let id_a = reg.add_file(String::from("a/run.ogg"), vec![1, 2, 3], &mut s).unwrap();
    let id_b = reg.add_file(String::from("a/brake.ogg"), vec![4], &mut s).unwrap();
    assert_eq!((id_a, id_b), (0, 1));
    assert_eq!(s.audio_entries.len(), 2);
    assert_eq!(reg.raw_data_by_id(id_a), Some(&vec![1, 2, 3]));
    // A path without a stem is refused and changes nothing.
    assert!(reg.add_file(String::from("a/"), vec![], &mut s).is_err());
    assert_eq!(s.audio_entries.len(), 2);
    reg.remove_file(id_a, &mut s);
    assert_eq!(reg.raw_data_by_id(id_a), None);
    assert_eq!(s.audio_entries.len(), 1);
    assert_eq!(s.audio_entries[0].name().as_str(), "brake");
    reg.assign_ids(&mut s);
    assert_eq!(*s.audio_entries[0].id(), 2);
    reg.clear(&mut s);
    assert!(s.audio_entries.is_empty());
}
