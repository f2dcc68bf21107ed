use robot_bridge::clock::{duration_as_vec, elapsed_as_vec};
use robot_bridge::marshal::{rust_function, to_i32, to_text, to_u16, MarshalError, NumVec, PythonPerson, ScriptValue};
use robot_bridge::channel::{CommandQueue, Poll};
use robot_bridge::session::{
    Directive, Event, Level, Outcome, Session, Stage, ENTRY_MODULE, HANDSHAKE_CALLBACK,
    HANDSHAKE_TEXT, INIT_CALLBACK, NATIVE_MODULE, SCRIPT_SEARCH_PATH,
};

fn ok() -> Event {
    Event::Succeeded(String::new())
}

#[test]
fn syntax_error_is_reported_once_with_path() {
    let mut s = Session::new("scripts/bad.py".to_string());
    assert!(matches!(s.begin(), Directive::ImportEntry));
    assert!(matches!(s.advance(ok()), Directive::CallInit));
    assert!(matches!(s.advance(ok()), Directive::CallHandshake));
    assert!(matches!(s.advance(ok()), Directive::Compile));
    match s.advance(Event::Failed("line 1: invalid syntax".to_string())) {
        Directive::Report(entry) => {
            assert_eq!(entry.level(), Level::Error);
            assert_eq!(entry.label(), "Syntax error");
            assert_eq!(entry.path, "scripts/bad.py");
            assert_eq!(entry.detail, "line 1: invalid syntax");
            assert_eq!(entry.outcome, Outcome::SyntaxError);
        }
        _ => panic!("expected a report"),
    }
    assert_eq!(s.current_stage(), Stage::Finished);
    assert!(matches!(s.advance(ok()), Directive::Idle));
    assert!(matches!(s.advance(Event::Failed("x".to_string())), Directive::Idle));
}

#[test]
fn missing_entry_module_aborts_before_execution() {
    let mut s = Session::new("main.py".to_string());
    assert!(matches!(s.begin(), Directive::ImportEntry));
    match s.advance(Event::Failed("No module named 'robot'".to_string())) {
        Directive::Abort(msg) => assert_eq!(msg, "No module named 'robot'"),
        _ => panic!("expected an abort"),
    }
    assert_eq!(s.current_stage(), Stage::Aborted);
    assert!(matches!(s.advance(ok()), Directive::Idle));
}

#[test]
fn failed_handshake_aborts() {
    let mut s = Session::new("main.py".to_string());
    s.begin();
    s.advance(ok());
    assert!(matches!(s.advance(ok()), Directive::CallHandshake));
    assert!(matches!(s.advance(Event::Failed("boom".to_string())), Directive::Abort(_)));
}

#[test]
fn runtime_error_and_success_reports() {
    let mut s = Session::new("a.py".to_string());
    s.begin();
    s.advance(ok());
    s.advance(ok());
    s.advance(ok());
    assert!(matches!(s.advance(ok()), Directive::Execute));
    match s.advance(Event::Failed("ZeroDivisionError".to_string())) {
        Directive::Report(e) => {
            assert_eq!(e.label(), "Runtime error");
            assert_eq!(e.level(), Level::Error);
            assert_eq!(e.path, "a.py");
        }
        _ => panic!("expected a report"),
    }

    let mut s = Session::new("b.py".to_string());
    s.begin();
    s.advance(ok());
    s.advance(ok());
    s.advance(ok());
    s.advance(ok());
    match s.advance(Event::Succeeded("None".to_string())) {
        Directive::Report(e) => {
            assert_eq!(e.label(), "Success");
            assert_eq!(e.level(), Level::Info);
            assert_eq!(e.detail, "None");
        }
        _ => panic!("expected a report"),
    }
    assert_eq!(s.script_path(), "b.py");
}

#[test]
fn duration_words() {
    assert_eq!(duration_as_vec(0, 0), Some([0, 0]));
    assert_eq!(duration_as_vec(3, 500_000_000), Some([3, 2_147_483_648]));
    assert_eq!(duration_as_vec(7, 999_999_999), Some([7, 4_294_967_296u64.saturating_sub(4) as u32]));
    assert_eq!(duration_as_vec(u32::MAX as u64, 1), Some([u32::MAX, 4]));
    assert_eq!(duration_as_vec(u32::MAX as u64 + 1, 0), None);
}

#[test]
fn elapsed_starts_near_zero() {
    let r = elapsed_as_vec(std::time::Instant::now());
    assert_eq!(r.map(|a| a[0]), Some(0));
}

#[test]
fn integer_conversions_never_truncate() {
    assert_eq!(to_u16(&ScriptValue::Int(0)), Ok(0));
    assert_eq!(to_u16(&ScriptValue::Int(65535)), Ok(65535));
    assert_eq!(to_u16(&ScriptValue::LargeInt), Err(MarshalError::OutOfRange));
    assert_eq!(to_u16(&ScriptValue::Bool(true)), Err(MarshalError::WrongType));
    assert_eq!(to_i32(&ScriptValue::Int(-5)), Ok(-5));
    assert_eq!(to_i32(&ScriptValue::Int(1 << 31)), Err(MarshalError::OutOfRange));
    assert_eq!(to_i32(&ScriptValue::NoneValue), Err(MarshalError::WrongType));
    assert_eq!(to_text(&ScriptValue::Text("hi".to_string())), Ok("hi".to_string()));
    assert_eq!(to_text(&ScriptValue::Int(1)), Err(MarshalError::WrongType));
}

#[test]
fn person_needs_a_text_name() {
    let p = PythonPerson::try_from_name_attribute(Some(ScriptValue::Text("Ada".to_string())));
    assert_eq!(p.ok().map(|p| p.name), Some("Ada".to_string()));
    assert_eq!(
        PythonPerson::try_from_name_attribute(None).err(),
        Some(MarshalError::MissingAttribute)
    );
    assert_eq!(
        PythonPerson::try_from_name_attribute(Some(ScriptValue::Int(3))).err(),
        Some(MarshalError::WrongType)
    );
}

#[test]
fn rust_function_round_trip() {
    let person = PythonPerson { name: "Ada".to_string() };
    let r = rust_function(42, "text", &person);
    let numbers = r.numbers();
    assert_eq!(numbers.0, vec![1, 2, 3, 4]);
    match numbers.to_script_value() {
        ScriptValue::IntList(items) => assert_eq!(items, vec![1i64, 2, 3, 4]),
        _ => panic!("expected a list"),
    }
    match NumVec(vec![-7, i32::MAX]).to_script_value() {
        ScriptValue::IntList(items) => assert_eq!(items, vec![-7i64, i32::MAX as i64]),
        _ => panic!("expected a list"),
    }
}

#[test]
fn entry_contract_names() {
    assert_eq!(NATIVE_MODULE, "robot_api");
    assert_eq!(SCRIPT_SEARCH_PATH, "python");
    assert_eq!(ENTRY_MODULE, "robot");
    assert_eq!(INIT_CALLBACK, "python_callback");
    assert_eq!(HANDSHAKE_CALLBACK, "take_string");
    assert_eq!(HANDSHAKE_TEXT, "Rust string sent to python");
}

#[test]
fn compile_failure_sends_no_command() {
    let queue = CommandQueue::new();
    let mut s = Session::new("p.py".to_string());
    let mut directives = vec![s.begin()];
    for _ in 0..3 {
        directives.push(s.advance(ok()));
    }
    directives.push(s.advance(Event::Failed("bad".to_string())));
    directives.push(s.advance(ok()));
    assert!(!directives.iter().any(|d| matches!(d, Directive::Execute)));
    let errors = directives
        .iter()
        .filter(|d| matches!(d, Directive::Report(e) if e.level() == Level::Error))
        .count();
    assert_eq!(errors, 1);
    let mut queue = queue;
    assert!(matches!(queue.try_recv(), Poll::Empty));
}
