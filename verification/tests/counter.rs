use counter_core::execute;
use counter_core::instantiate;
use counter_core::query;
use counter_core::AppState;
use counter_core::CurrentResp;
use counter_core::Error;
use counter_core::ExecuteMsg;
use counter_core::Instance;
use counter_core::InstantiateMsg;
use counter_core::QueryMsg;

fn get_value(app: &Instance) -> u32 {
    let CurrentResp { value } = app.query(QueryMsg::Current {}).unwrap();
    value
}

#[test]
fn sanity_check() {
    let mut app = Instance::new();
    app.init(InstantiateMsg { initial_value: 5 }).unwrap();

    assert_eq!(get_value(&app), 5);
    app.execute(ExecuteMsg::Increment {}).unwrap();
    assert_eq!(get_value(&app), 6);
    app.execute(ExecuteMsg::Decrement {}).unwrap();
    assert_eq!(get_value(&app), 5);
}

#[test]
fn init_then_query_returns_initial_value() {
    let st = instantiate(None, InstantiateMsg { initial_value: 42 }).unwrap();
    assert_eq!(st, AppState { current_value: 42 });
    let resp = query(Some(st), QueryMsg::Current {}).unwrap();
    assert_eq!(resp, CurrentResp { value: 42 });
}

#[test]
fn increment_then_decrement_restores_value() {
    let st = AppState { current_value: 7 };
    let up = execute(Some(st), ExecuteMsg::Increment {}).unwrap();
    assert_eq!(up, AppState { current_value: 8 });
    let back = execute(Some(up), ExecuteMsg::Decrement {}).unwrap();
    assert_eq!(back, st);
}

#[test]
fn decrement_then_increment_restores_value() {
    let st = AppState { current_value: 7 };
    let down = execute(Some(st), ExecuteMsg::Decrement {}).unwrap();
    assert_eq!(down, AppState { current_value: 6 });
    let back = execute(Some(down), ExecuteMsg::Increment {}).unwrap();
    assert_eq!(back, st);
}

#[test]
fn increment_at_max_overflows_and_keeps_state() {
    let mut app = Instance::new();
    app.init(InstantiateMsg { initial_value: u32::MAX }).unwrap();
    assert_eq!(app.execute(ExecuteMsg::Increment {}), Err(Error::Overflow));
    assert_eq!(get_value(&app), u32::MAX);
}

#[test]
fn decrement_at_zero_underflows_and_keeps_state() {
    let mut app = Instance::new();
    app.init(InstantiateMsg { initial_value: 0 }).unwrap();
    assert_eq!(app.execute(ExecuteMsg::Decrement {}), Err(Error::Underflow));
    assert_eq!(get_value(&app), 0);
}

#[test]
fn queries_do_not_mutate() {
    let mut app = Instance::new();
    app.init(InstantiateMsg { initial_value: 9 }).unwrap();
    assert_eq!(get_value(&app), 9);
    assert_eq!(get_value(&app), 9);
    app.execute(ExecuteMsg::Increment {}).unwrap();
    assert_eq!(get_value(&app), 10);
    assert_eq!(get_value(&app), 10);
}

#[test]
fn calls_before_initialization_fail() {
    assert_eq!(execute(None, ExecuteMsg::Increment {}), Err(Error::Uninitialized));
    assert_eq!(execute(None, ExecuteMsg::Decrement {}), Err(Error::Uninitialized));
    assert_eq!(query(None, QueryMsg::Current {}), Err(Error::Uninitialized));
    let app = Instance::new();
    assert_eq!(app.query(QueryMsg::Current {}), Err(Error::Uninitialized));
}

#[test]
fn second_initialization_fails_and_keeps_value() {
    let mut app = Instance::new();
    app.init(InstantiateMsg { initial_value: 5 }).unwrap();
    assert_eq!(
        app.init(InstantiateMsg { initial_value: 9 }),
        Err(Error::AlreadyInitialized)
    );
    assert_eq!(get_value(&app), 5);

    assert_eq!(
        instantiate(
            Some(AppState { current_value: 5 }),
            InstantiateMsg { initial_value: 9 }
        ),
        Err(Error::AlreadyInitialized)
    );
}
