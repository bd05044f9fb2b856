use raster_pipeline::protocol::{CompareSession, EngineCall, FitTransformSession};

#[test]
fn the_fit_transform_session_orders_its_calls() {
    let mut session = FitTransformSession::new(3, 2).unwrap();
    let mut calls = Vec::new();
    loop {
        let call = session.next_call();
        if call == EngineCall::Done {
            break;
        }
        calls.push(call);
        session.advance();
    }
    assert_eq!(
        calls,
        vec![
            EngineCall::Init { n_components: 3 },
            EngineCall::PartialFit { index: 0 },
            EngineCall::PartialFit { index: 1 },
            EngineCall::Apply { index: 0 },
            EngineCall::Apply { index: 1 },
        ]
    );
}

#[test]
fn a_fit_transform_session_over_no_tiles_only_initializes() {
    let mut session = FitTransformSession::new(1, 0).unwrap();
    assert_eq!(session.next_call(), EngineCall::Init { n_components: 1 });
    session.advance();
    assert_eq!(session.next_call(), EngineCall::Done);
}

#[test]
fn the_compare_session_walks_the_pairs_in_order() {
    let mut session = CompareSession::new(2);
    assert_eq!(session.next_call(), EngineCall::Compare { index: 0 });
    session.advance();
    assert_eq!(session.next_call(), EngineCall::Compare { index: 1 });
    session.advance();
    assert_eq!(session.next_call(), EngineCall::Done);
}
