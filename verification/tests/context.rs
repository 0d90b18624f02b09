use ripsaw::compiler::context::{Context, TimeZone};
use ripsaw::compiler::state::RuntimeState;
use ripsaw::parser::ast::Ident;
use ripsaw::value::Value;

#[test]
fn context_hands_out_what_it_was_given() {
    let mut target = Value::Integer(1);
    let mut state = RuntimeState::new();
    let tz = TimeZone::Named("Europe/Paris".to_string());
    {
        let mut ctx: Context<'_, u8> = Context::new(&mut target, &mut state, &tz);
        assert_eq!(ctx.target(), &Value::Integer(1));
        assert_eq!(ctx.timezone(), &TimeZone::Named("Europe/Paris".to_string()));
        assert!(ctx.dynamic_state().is_none());
        *ctx.target_mut() = Value::Integer(2);
        ctx.state_mut().insert_variable(Ident::new("x"), Value::Null);
        assert!(ctx.state().variable(&Ident::new("x")).is_some());
    }
    assert_eq!(target, Value::Integer(2));
    assert!(!state.is_empty());
}

#[test]
fn dynamic_state_is_reachable() {
    let mut target = Value::Null;
    let mut state = RuntimeState::new();
    let tz = TimeZone::default();
    let mut extra = 5u8;
    {
        let mut ctx = Context::new(&mut target, &mut state, &tz).with_dynamic_state(&mut extra);
        *ctx.dynamic_state().unwrap() += 1;
    }
    assert_eq!(extra, 6);
    assert_eq!(TimeZone::default(), TimeZone::Local);
}

#[test]
fn variables_are_bound_once() {
    let mut state = RuntimeState::new();
    assert!(state.is_empty());
    state.insert_variable(Ident::new("a"), Value::Integer(1));
    state.insert_variable(Ident::new("b"), Value::Integer(2));
    state.insert_variable(Ident::new("a"), Value::Integer(3));
    assert_eq!(state.variable(&Ident::new("a")), Some(&Value::Integer(3)));
    assert_eq!(state.variable(&Ident::new("b")), Some(&Value::Integer(2)));
    assert_eq!(state.variable(&Ident::new("c")), None);
}

#[test]
fn writes_through_the_context_reach_the_caller() {
    let mut target = Value::Integer(1);
    let mut state = RuntimeState::new();
    let tz = TimeZone::Local;
    let mut extra: u8 = 7;
    {
        let mut ctx = Context::new(&mut target, &mut state, &tz).with_dynamic_state(&mut extra);
        *ctx.target_mut() = Value::Boolean(true);
        assert_eq!(ctx.target(), &Value::Boolean(true));
        ctx.state_mut().insert_variable(Ident::new("x"), Value::Integer(3));
        assert_eq!(ctx.dynamic_state().map(|d| *d), Some(7));
        *ctx.dynamic_state().unwrap() = 9;
    }
    assert_eq!(target, Value::Boolean(true));
    assert_eq!(state.variable(&Ident::new("x")), Some(&Value::Integer(3)));
    assert_eq!(extra, 9);
}
