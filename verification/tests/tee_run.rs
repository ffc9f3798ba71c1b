use rtk_core::lines::split_lines;
use rtk_core::rotation::{cleanup_old_files, comes_before, has_log_extension};
use rtk_core::tee::tee_file_name;
use rtk_core::tee_config::{TeeConfig, TeeMode, DEFAULT_MAX_FILE_SIZE};
use rtk_core::tee_run::{
    force_tee_hint, is_switched_off, step, tee_raw, write_tee_file, TeeAction, TeeEvent, TeeRun,
};
use std::path::PathBuf;

/// A directory in memory, and everything else that a run asks for.
struct World {
    switch: Option<String>,
    settings: Option<(TeeConfig, Option<PathBuf>)>,
    can_make: bool,
    epoch: Option<u64>,
    can_write: bool,
    files: Vec<(String, String)>,
    log: Vec<&'static str>,
}

impl World {
    fn new(tee: TeeConfig) -> World {
        World {
            switch: None,
            settings: Some((tee, Some(PathBuf::from("/tee")))),
            can_make: true,
            epoch: Some(1713200000),
            can_write: true,
            files: Vec::new(),
            log: Vec::new(),
        }
    }

    fn names(&self) -> Vec<Vec<u8>> {
        self.files.iter().map(|f| f.0.as_bytes().to_vec()).collect()
    }

    fn perform(&mut self, run: TeeRun) -> Option<PathBuf> {
        self.perform_from(run, TeeAction::ReadSwitch)
    }

    fn write(&mut self, raw: &str, slug: &str, size: usize, files: usize) -> Option<PathBuf> {
        let dir = PathBuf::from("/tee");
        let run = write_tee_file(raw, slug, dir.clone(), size, files);
        self.perform_from(run, TeeAction::MakeDirectory(dir))
    }

    fn perform_from(&mut self, run: TeeRun, first: TeeAction) -> Option<PathBuf> {
        let mut run = run;
        let mut action = first;
        loop {
            let event = match action {
                TeeAction::ReadSwitch => {
                    self.log.push("switch");
                    TeeEvent::Switch(self.switch.clone())
                }
                TeeAction::ReadSettings => {
                    self.log.push("settings");
                    TeeEvent::Settings(self.settings.clone())
                }
                TeeAction::MakeDirectory(dir) => {
                    self.log.push("make");
                    assert_eq!(dir, PathBuf::from("/tee"));
                    TeeEvent::Directory(self.can_make)
                }
                TeeAction::ReadClock => {
                    self.log.push("clock");
                    TeeEvent::Clock(self.epoch)
                }
                TeeAction::WriteFile(path, text) => {
                    self.log.push("write");
                    if self.can_write {
                        let name = path.file_name().unwrap().to_str().unwrap().to_string();
                        self.files.push((name, text));
                    }
                    TeeEvent::Written(self.can_write)
                }
                TeeAction::ListDirectory(dir) => {
                    self.log.push("list");
                    assert_eq!(dir, PathBuf::from("/tee"));
                    TeeEvent::Listing(self.names())
                }
                TeeAction::RemoveFiles(mut removed) => {
                    self.log.push("remove");
                    removed.sort();
                    for index in removed.iter().rev() {
                        self.files.remove(*index);
                    }
                    TeeEvent::Removed
                }
                TeeAction::Finish(path) => return path,
            };
            let (next, next_action) = step(run, event);
            run = next;
            action = next_action;
        }
    }
}

fn always(max_file_size: usize, max_files: usize) -> TeeConfig {
    TeeConfig {
        mode: TeeMode::Always,
        max_file_size,
        max_files,
        ..TeeConfig::default()
    }
}

#[test]
fn test_write_tee_file_creates_file() {
    let mut world = World::new(TeeConfig::default());
    let content = "error: test failed\n".repeat(50);
    let result = world.write(&content, "cargo_test", DEFAULT_MAX_FILE_SIZE, 20);
    assert!(result.is_some());

    let path = result.unwrap();
    assert_eq!(path, PathBuf::from("/tee/1713200000_cargo_test.log"));
    assert_eq!(world.files.len(), 1);
    let written = &world.files[0].1;
    assert!(written.contains("error: test failed"));
    assert_eq!(written, &content);
}

#[test]
fn test_write_tee_file_truncation() {
    let big_output = "x".repeat(2000);
    // Set max_file_size to 1000 bytes
    let mut world = World::new(TeeConfig::default());
    let result = world.write(&big_output, "test", 1000, 20);
    assert!(result.is_some());

    let content = &world.files[0].1;
    assert!(content.contains("--- truncated at 1000 bytes ---"));
    assert!(content.len() < 2000);
}

#[test]
fn test_write_tee_file_truncation_utf8_boundary() {
    // Create a string where the truncation point falls inside a multi-byte char.
    // Japanese chars are 3 bytes each in UTF-8.
    let japanese = "\u{6F22}".repeat(333); // 999 bytes of 3-byte chars
    assert_eq!(japanese.len(), 999);

    // Truncate at 998, which falls in the middle of the 333rd character
    let mut world = World::new(TeeConfig::default());
    let result = world.write(&japanese, "test_utf8", 998, 20);
    assert!(result.is_some());

    let content = &world.files[0].1;
    assert!(content.contains("--- truncated at 998 bytes ---"));
    // Should contain 332 full characters (996 bytes), not panic
    assert!(content.starts_with(&"\u{6F22}".repeat(332)));
    assert!(!content.starts_with(&"\u{6F22}".repeat(333)));
}

#[test]
fn test_write_tee_file_truncation_emoji() {
    // Emoji are 4 bytes each in UTF-8
    let emojis = "\u{1F600}".repeat(100); // 400 bytes
    assert_eq!(emojis.len(), 400);

    // Truncate at 201, which falls mid-emoji (4-byte boundary is at 200, 204)
    let mut world = World::new(TeeConfig::default());
    let result = world.write(&emojis, "test_emoji", 201, 20);
    assert!(result.is_some());

    let content = &world.files[0].1;
    assert!(content.contains("--- truncated at 201 bytes ---"));
    // The emoji portion should be exactly 200 bytes (50 emojis),
    // rounded down from 201 to the nearest char boundary
    let target = "\u{1F600}".repeat(50);
    assert!(content.starts_with(&target));
    assert!(!content.starts_with(&"\u{1F600}".repeat(51)));
}

#[test]
fn test_cleanup_old_files() {
    // 25 .log files
    let names: Vec<Vec<u8>> = (0..25)
        .map(|i| format!("{:010}_{}.log", 1000000 + i, "test").into_bytes())
        .collect();
    let removed = cleanup_old_files(&names, 20);
    let remaining: Vec<&Vec<u8>> = names
        .iter()
        .enumerate()
        .filter(|(index, _)| !removed.contains(index))
        .map(|(_, name)| name)
        .collect();
    assert_eq!(remaining.len(), 20);

    // Oldest 5 should be removed
    for i in 0..5 {
        let filename = format!("{:010}_{}.log", 1000000 + i, "test").into_bytes();
        assert!(!remaining.contains(&&filename));
    }
    // Newest 20 should remain
    for i in 5..25 {
        let filename = format!("{:010}_{}.log", 1000000 + i, "test").into_bytes();
        assert!(remaining.contains(&&filename));
    }
    assert_eq!(removed, vec![0, 1, 2, 3, 4]);
}

#[test]
fn test_force_tee_hint_skip_small_output() {
    // force_tee_hint should respect MIN_TEE_SIZE
    let small_output = "short error";
    let mut world = World::new(TeeConfig::default());
    let saved = world.perform(force_tee_hint(small_output, "test_cmd"));
    assert!(saved.is_none(), "Should skip output < MIN_TEE_SIZE");
    assert_eq!(world.log, vec!["switch"]);
}

#[test]
fn test_force_tee_hint_respects_env_disable() {
    // When RTK_TEE=0, force_tee_hint should return None
    let large_output = "x".repeat(1000);
    let mut world = World::new(TeeConfig::default());
    world.switch = Some("0".to_string());
    let saved = world.perform(force_tee_hint(&large_output, "test_cmd"));
    assert!(saved.is_none(), "Should respect RTK_TEE=0");
    assert_eq!(world.log, vec!["switch"]);
}

#[test]
fn forced_run_ignores_the_mode() {
    let output = "x".repeat(500);
    let mut world = World::new(TeeConfig {
        mode: TeeMode::Never,
        ..TeeConfig::default()
    });
    assert!(world.perform(force_tee_hint(&output, "cmd")).is_some());
    assert!(world.perform(tee_raw(&output, "cmd", 1)).is_none());
    let mut world = World::new(TeeConfig {
        enabled: false,
        ..TeeConfig::default()
    });
    assert!(world.perform(force_tee_hint(&output, "cmd")).is_none());
    assert!(world.files.is_empty());
}

#[test]
fn run_of_a_successful_command_saves_nothing_by_default() {
    let output = "x".repeat(500);
    let mut world = World::new(TeeConfig::default());
    assert!(world.perform(tee_raw(&output, "cmd", 0)).is_none());
    assert_eq!(world.log, vec!["switch", "settings"]);
    assert!(world.perform(tee_raw(&output, "cmd", 2)).is_some());
}

#[test]
fn run_goes_through_all_steps() {
    let output = "x".repeat(500);
    let mut world = World::new(TeeConfig::default());
    world.switch = Some("1".to_string());
    assert!(world.perform(tee_raw(&output, "cmd", 1)).is_some());
    assert_eq!(
        world.log,
        vec!["switch", "settings", "make", "clock", "write", "list", "remove"]
    );
}

#[test]
fn run_gives_up_on_failures() {
    let output = "x".repeat(500);
    let mut world = World::new(TeeConfig::default());
    world.settings = None;
    assert!(world.perform(tee_raw(&output, "cmd", 1)).is_none());
    let mut world = World::new(TeeConfig::default());
    world.settings = Some((TeeConfig::default(), None));
    assert!(world.perform(tee_raw(&output, "cmd", 1)).is_none());
    let mut world = World::new(TeeConfig::default());
    world.can_make = false;
    assert!(world.perform(tee_raw(&output, "cmd", 1)).is_none());
    let mut world = World::new(TeeConfig::default());
    world.epoch = None;
    assert!(world.perform(tee_raw(&output, "cmd", 1)).is_none());
    let mut world = World::new(TeeConfig::default());
    world.can_write = false;
    assert!(world.perform(tee_raw(&output, "cmd", 1)).is_none());
    assert_eq!(world.log.last(), Some(&"write"));
}

#[test]
fn writing_gives_up_on_failures() {
    let mut world = World::new(TeeConfig::default());
    world.can_make = false;
    assert!(world.write("text", "cmd", 100, 20).is_none());
    let mut world = World::new(TeeConfig::default());
    world.epoch = None;
    assert!(world.write("text", "cmd", 100, 20).is_none());
    let mut world = World::new(TeeConfig::default());
    world.can_write = false;
    assert!(world.write("text", "cmd", 100, 20).is_none());
    assert_eq!(world.log, vec!["make", "clock", "write"]);
    // Neither the settings nor the size matter to the writing itself.
    let mut world = World::new(TeeConfig::default());
    world.settings = None;
    assert_eq!(
        world.write("text", "cmd", 100, 20),
        Some(PathBuf::from("/tee/1713200000_cmd.log"))
    );
    assert_eq!(world.files[0].1, "text");
}

#[test]
fn whole_lines_keep_their_numbers_in_a_cut_file() {
    let output = "one\ntwo\r\nthree\nfour";
    let mut world = World::new(TeeConfig::default());
    assert!(world.write(output, "cmd", 17, 20).is_some());
    let content = &world.files[0].1;
    assert_eq!(content, "one\ntwo\r\nthree\nfo\n\n--- truncated at 17 bytes ---");
    assert_eq!(split_lines(content)[..3], split_lines(output)[..3]);
    assert_ne!(split_lines(content)[3], split_lines(output)[3]);
}

#[test]
fn unexpected_event_ends_the_run() {
    let (run, action) = step(tee_raw("x", "cmd", 1), TeeEvent::Written(true));
    assert!(matches!(action, TeeAction::Finish(None)));
    let (_, action) = step(run, TeeEvent::Switch(None));
    assert!(matches!(action, TeeAction::Finish(None)));
}

#[test]
fn saved_outputs_are_rotated() {
    let output = "x".repeat(500);
    let mut world = World::new(always(1000, 2));
    for epoch in 1713200000..1713200005u64 {
        world.epoch = Some(epoch);
        assert!(world.perform(tee_raw(&output, "cmd", 0)).is_some());
    }
    let names: Vec<&str> = world.files.iter().map(|file| file.0.as_str()).collect();
    assert_eq!(names, vec!["1713200003_cmd.log", "1713200004_cmd.log"]);
}

#[test]
fn only_the_value_zero_switches_off() {
    assert!(is_switched_off(&Some("0".to_string())));
    assert!(!is_switched_off(&Some("".to_string())));
    assert!(!is_switched_off(&Some("00".to_string())));
    assert!(!is_switched_off(&None));
}

fn listing(names: &[&str]) -> Vec<Vec<u8>> {
    names.iter().map(|name| name.as_bytes().to_vec()).collect()
}

#[test]
fn rotation_goes_by_name_and_spares_other_files() {
    let names = listing(&["3_c.log", "1_a.txt", "2_b.log", "1_a.log", "notes", ".log"]);
    assert_eq!(cleanup_old_files(&names, 1), vec![3, 2]);
    assert_eq!(cleanup_old_files(&names, 0), vec![3, 2, 0]);
    assert!(cleanup_old_files(&names, 3).is_empty());
    assert!(cleanup_old_files(&names, 10).is_empty());
    assert!(cleanup_old_files(&Vec::new(), 0).is_empty());
    let names = listing(&["b.log", "a.log", "b.log"]);
    assert_eq!(cleanup_old_files(&names, 0), vec![1, 0, 2]);
}

#[test]
fn log_extensions() {
    assert!(has_log_extension(&b"a.log".to_vec()));
    assert!(has_log_extension(&b"..log".to_vec()));
    assert!(has_log_extension(&b"\xff.log".to_vec()));
    assert!(!has_log_extension(&b".log".to_vec()));
    assert!(!has_log_extension(&b"a.LOG".to_vec()));
    assert!(!has_log_extension(&b"a.log.gz".to_vec()));
    assert!(!has_log_extension(&b"alog".to_vec()));
    for name in ["a.log", "..log", ".log", "a.LOG", "a.log.gz", "alog", "a.b.log", "log"] {
        let path = PathBuf::from("/tee").join(name);
        let expected = path.extension().map_or(false, |ext| ext == "log");
        assert_eq!(has_log_extension(&name.as_bytes().to_vec()), expected);
    }
}

#[test]
fn names_sort_by_bytes() {
    assert!(comes_before(&b"a".to_vec(), &b"ab".to_vec()));
    assert!(!comes_before(&b"ab".to_vec(), &b"a".to_vec()));
    assert!(comes_before(&b"1_z".to_vec(), &b"2_a".to_vec()));
    assert!(!comes_before(&b"a".to_vec(), &b"a".to_vec()));
}

#[test]
fn names_of_saved_outputs_sort_by_time() {
    let earlier = tee_file_name(1713200009, "zzz").into_bytes();
    let later = tee_file_name(1713200010, "aaa").into_bytes();
    assert!(comes_before(&earlier, &later));
    // With fewer digits an earlier time can come after a later one.
    let earlier = tee_file_name(999999999, "a").into_bytes();
    let later = tee_file_name(1000000000, "a").into_bytes();
    assert!(!comes_before(&earlier, &later));
}
