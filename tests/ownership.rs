use april_asr_rs::{AprilConfig, AprilConfigFlags, AprilSession, Error};
use std::cell::RefCell;
use std::rc::Rc;

type Log = Rc<RefCell<Vec<String>>>;

/// Stands for a callback context; records when it is released.
struct Context {
    name: &'static str,
    log: Log,
}

impl Drop for Context {
    fn drop(&mut self) {
        self.log.borrow_mut().push(format!("release {}", self.name));
    }
}

/// Stands for the engine's session handle; records when it is freed.
struct Native {
    log: Log,
}

impl Drop for Native {
    fn drop(&mut self) {
        self.log.borrow_mut().push(String::from("free session"));
    }
}

fn context(name: &'static str, log: &Log) -> Context {
    Context { name, log: log.clone() }
}

#[test]
fn replacing_and_clearing_handlers_releases_each_once() {
    let log: Log = Rc::new(RefCell::new(Vec::new()));
    let mut config = AprilConfig::new();
    assert!(!config.has_handler());
    config.set_handler_fn(context("a", &log));
    assert!(log.borrow().is_empty());
    config.set_handler_fn(context("b", &log));
    assert_eq!(*log.borrow(), vec!["release a"]);
    assert!(config.has_handler());
    config.clear_handler_fn();
    assert_eq!(*log.borrow(), vec!["release a", "release b"]);
    assert!(!config.has_handler());
    config.clear_handler_fn();
    assert_eq!(log.borrow().len(), 2);
    drop(config);
    assert_eq!(log.borrow().len(), 2);
}

#[test]
fn config_defaults_and_flags() {
    let mut config: AprilConfig<Context> = AprilConfig::new();
    assert_eq!(config.flags().bits, 0);
    assert_eq!(config.speaker().data, [0u8; 16]);
    let f = AprilConfigFlags::async_rt().union(AprilConfigFlags::async_no_rt());
    assert_eq!(f.bits, 3);
    assert!(f.contains(AprilConfigFlags::async_rt()));
    assert!(!AprilConfigFlags::empty().contains(AprilConfigFlags::async_no_rt()));
    config.set_flags(AprilConfigFlags::async_no_rt());
    assert_eq!(config.flags().bits, 2);
}

#[test]
fn into_raw_hands_the_context_on() {
    let log: Log = Rc::new(RefCell::new(Vec::new()));
    let mut config = AprilConfig::new();
    config.set_flags(AprilConfigFlags::async_rt());
    config.set_handler_fn(context("a", &log));
    let parts = config.into_raw();
    assert!(log.borrow().is_empty());
    assert_eq!(parts.flags.bits, 1);
    let config = AprilConfig::from_raw(parts);
    assert!(config.has_handler());
    drop(config);
    assert_eq!(*log.borrow(), vec!["release a"]);
}

#[test]
fn session_teardown_frees_engine_session_before_context() {
    let log: Log = Rc::new(RefCell::new(Vec::new()));
    let session = AprilSession::new(Some(Native { log: log.clone() }), Some(context("a", &log)))
        .unwrap_or_else(|_| panic!("session expected"));
    assert!(session.native().is_some());
    assert!(log.borrow().is_empty());
    drop(session);
    assert_eq!(*log.borrow(), vec!["free session", "release a"]);
}

#[test]
fn failed_session_still_releases_context() {
    let log: Log = Rc::new(RefCell::new(Vec::new()));
    let r = AprilSession::<Native, Context>::new(None, Some(context("a", &log)));
    assert!(matches!(r, Err(Error::NullPtr)));
    assert_eq!(*log.borrow(), vec!["release a"]);
}

#[test]
fn empty_audio_makes_no_engine_call() {
    let log: Log = Rc::new(RefCell::new(Vec::new()));
    let session = AprilSession::<Native, Context>::new(Some(Native { log: log.clone() }), None)
        .unwrap_or_else(|_| panic!("session expected"));
    let mut calls = 0;
    let empty: Vec<i16> = Vec::new();
    if session.feed_pcm16_target(&empty).is_some() {
        calls += 1;
    }
    assert_eq!(calls, 0);
    let samples: Vec<i16> = vec![0, 120, -300];
    if session.feed_pcm16_target(&samples).is_some() {
        calls += 1;
    }
    assert_eq!(calls, 1);
}

#[test]
fn default_config_holds_no_handler() {
    let config: AprilConfig<Context> = AprilConfig::default();
    assert!(!config.has_handler());
    assert_eq!(config.flags().bits, 0);
    assert_eq!(config.speaker().data, [0u8; 16]);
}

#[test]
fn explicit_teardown_releases_once() {
    let log: Log = Rc::new(RefCell::new(Vec::new()));
    let mut session = AprilSession::new(Some(Native { log: log.clone() }), Some(context("a", &log)))
        .unwrap_or_else(|_| panic!("session expected"));
    session.teardown();
    assert_eq!(*log.borrow(), vec!["free session", "release a"]);
    assert!(session.native().is_none());
    let samples: Vec<i16> = vec![1, 2];
    assert!(session.feed_pcm16_target(&samples).is_none());
    session.teardown();
    drop(session);
    assert_eq!(log.borrow().len(), 2);
}
