use ocean::OnError;

#[test]
fn on_err_runs_the_action_only_on_an_error() {
    let mut hits = 0;
    let ok: Result<i32, i32> = Ok(1);
    let r = ok.on_err(|| hits += 1);
    assert_eq!(r, Ok(1));
    assert_eq!(hits, 0);
    let err: Result<i32, i32> = Err(2);
    let r = err.on_err(|| hits += 1);
    assert_eq!(r, Err(2));
    assert_eq!(hits, 1);
}
