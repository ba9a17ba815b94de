//! Tests of the system utilities: benchmarking, configuration, deferred
//! actions, the environment configuration, and the logger.

use std::cell::RefCell;
use std::rc::Rc;

use lia::{Config, Configs, Defer, Deferable, Kinds, Log, Logger, Profile};

fn all_kinds() -> Kinds {
    Kinds { trace: true, info: true, warn: true, error: true }
}

fn stress_test() -> String {
    for _ in 0..1000000 {
        let _ = 1 + 1;
    }

    String::from("I'm stressed!")
}

fn parameterized_stress_test(n: u32) -> String {
    for _ in 0..n {
        let _ = 1 + 1;
    }

    String::from("I'm stressed!")
}

fn multi_parameterized_stress_test(n: u32, m: u32) -> String {
    for _ in 0..n {
        for _ in 0..m {
            let _ = 1 + 1;
        }
    }

    String::from("I'm stressed!")
}

fn macro_stress_test() -> String {
    lia::benchmark("macro_stress_test", || stress_test())
}

#[test]
fn test_benchmark() {
    let result = lia::benchmark("stress_test()", || stress_test());
    assert_eq!(result, String::from("I'm stressed!"));

    let result = lia::benchmark("parameterized_stress_test(1000000)", || {
        parameterized_stress_test(1000000)
    });
    assert_eq!(result, String::from("I'm stressed!"));

    let result = lia::benchmark("multi_parameterized_stress_test(1000, 1000)", || {
        multi_parameterized_stress_test(1000, 1000)
    });
    assert_eq!(result, String::from("I'm stressed!"));

    let result = macro_stress_test();
    assert_eq!(result, String::from("I'm stressed!"));
}

#[test]
fn config_test_new() {
    let log = Log { on: true, debug: false, save: false, kinds: all_kinds() };
    drop(Configs::open(log, Profile::DEBUG));
}

#[test]
fn test_defer_with_deferable_i32() {
    let y = Rc::new(RefCell::new(0));
    let _defer = Defer::new(|| {
        println!("Defer block executed.");
        *y.get_mut().unwrap() = 1;
        println!("y = {}", *y.get().unwrap());
    });
    assert_eq!(*y.get().unwrap(), 0);
    println!("Test block executed.");
    println!("y = {}", *y.get().unwrap());
}

#[test]
fn test_defer_with_deferable_string() {
    let x = Rc::new(RefCell::new(String::from("Hello")));
    let y = Rc::clone(&x);
    let _defer = Defer::new(|| {
        println!("Defer block executed.");
        y.get_mut().unwrap().push_str(", world!");
        println!("y = {}", *y.get().unwrap());
    });
    assert_eq!(*x.get().unwrap(), "Hello");
    println!("Test block executed.");
    println!("x = {}", *x.get().unwrap());
}

#[test]
fn test_borrow_in_defer() {
    let x = Rc::new(RefCell::new(0));
    let _defer = Defer::new(|| {
        println!("Defer block executed.");
        *x.get_mut().unwrap() = 1;
    });
    println!("Test block executed.");
    println!("x = {}", *x.get().unwrap());
}

#[test]
fn config_test_config() {
    let config = Config::open(String::from("DEBUG"), String::from("postgres://localhost:5432/lia"));
    let prof_works: bool = config.profile() == Profile::DEBUG;
    let has_db_url: bool = config.database_url().len() > 0;
    assert_eq!(prof_works, true);
    assert_eq!(has_db_url, true);
}

#[test]
fn test_defer() {
    let x = Rc::new(RefCell::new(0));
    let _defer = Defer::new(|| {
        x.set(1).unwrap();
        assert_eq!(*x.get().unwrap(), 1);
    });
    assert_eq!(*x.get().unwrap(), 0);
}

#[test]
fn test_deferable() {
    let x = Rc::new(RefCell::new(1));
    assert_eq!(*x.get().unwrap(), 1);
    assert_eq!(*x.get_mut().unwrap(), 1);
}

#[test]
fn debug_test_logger() {
    let log = Log { on: true, debug: false, save: true, kinds: all_kinds() };
    let config = Configs::open(log, Profile::DEBUG);
    Logger::info(&config, "LiA", "Test info message", true);
    Logger::trace(&config, "LiA", "Test trace message", true);
    Logger::warn(&config, "LiA", "Test warning message", true);
    Logger::error(&config, "LiA", "Test error message", true);
}

#[test]
fn mod_test_logger() {
    let mut process = String::from("LiA");
    lia::set_process_name(&mut process, "Test");
    assert_eq!(lia::get_process_name(&process), "Test");
    let log = Log { on: true, debug: false, save: true, kinds: all_kinds() };
    let config = Configs::open(log, Profile::DEBUG);
    Logger::info(&config, process.as_str(), "Test info message", true);
    Logger::trace(&config, process.as_str(), "Test trace message", true);
    Logger::warn(&config, process.as_str(), "Test warning message", true);
    Logger::error(&config, process.as_str(), "Test error message", true);
}

#[test]
fn logger_lines_follow_the_layout() {
    let line = lia::compose_line("Test", lia::LogLevel::Info, "2024-01-01 00:00:00", "hello");
    assert_eq!(line, "Test::[\"INFO\"] 2024-01-01 00:00:00 - hello");
    let line = lia::compose_line("P", lia::LogLevel::Error, "s", "m");
    assert_eq!(line, "P::[\"ERROR\"] s - m");
    let line =
        lia::compose_line_at("Test", lia::LogLevel::Warn, "2024-01-01 00:00:00", "cli.rs:12", "w");
    assert_eq!(line, "Test::[\"WARN\"] 2024-01-01 00:00:00 [cli.rs:12] - w");
}

#[test]
fn deferable_reports_conflicting_borrows() {
    let x = Rc::new(RefCell::new(5));
    let guard = x.get().unwrap();
    assert!(x.get_mut().is_none());
    assert!(x.set(6).is_none());
    assert_eq!(*x.get().unwrap(), 5);
    drop(guard);
    assert!(x.set(6).is_some());
    assert_eq!(*x.get().unwrap(), 6);
}

#[test]
fn logger_respects_disabled_kinds() {
    let kinds = Kinds { trace: false, info: true, warn: false, error: true };
    let log = Log { on: true, debug: false, save: false, kinds };
    let config = Configs::open(log, Profile::DEBUG);
    assert!(Logger::info(&config, "P", "m", false).is_some());
    assert!(Logger::trace(&config, "P", "m", false).is_none());
    assert!(Logger::warn(&config, "P", "m", false).is_none());
    assert!(Logger::error(&config, "P", "m", false).is_some());
    let line = Logger::log_at(&config, lia::LogLevel::Info, "P", "cli.rs:7", "m", false).unwrap();
    assert!(line.starts_with("P::[\"INFO\"] "));
    assert!(line.ends_with(" [cli.rs:7] - m"));
    assert!(Logger::log_at(&config, lia::LogLevel::Warn, "P", "cli.rs:7", "m", false).is_none());
}

#[test]
fn configs_set_log_changes_only_what_it_names() {
    let kinds = all_kinds();
    let log = Log { on: true, debug: true, save: true, kinds };
    let mut config = Configs::open(log, Profile::DEBUG);
    config.set_log(false, false, None);
    let log = config.get_log();
    assert_eq!(log.on, false);
    assert_eq!(log.save, false);
    assert_eq!(log.debug, true);
    assert_eq!(log.kinds, kinds);
    let narrow = Kinds { trace: false, info: true, warn: false, error: false };
    config.set_log(true, true, Some(narrow));
    assert!(config.get_log().on);
    assert!(config.get_save());
    assert!(config.save());
    assert!(config.debug());
    assert_eq!(config.get_log().kinds, narrow);
    assert_eq!(config.get_profile(), Profile::DEBUG);
    assert_eq!(*config.profile(), Profile::DEBUG);
    assert_eq!(config.log().on, true);
}

#[test]
fn benchmark_hands_back_the_result() {
    let v = lia::benchmark("sum", || 2 + 3);
    assert_eq!(v, 5);
}
