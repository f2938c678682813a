use take_until::describe::describe;
use take_until::describe::describe_outcome;
use take_until::hint::cap_hint;
use take_until::probe::Probe;

#[test]
fn cap_hint_of_a_stopped_adapter_is_exactly_zero() {
    assert_eq!(cap_hint(true, (0, Some(0))), (0, Some(0)));
    assert_eq!(cap_hint(true, (5, Some(9))), (0, Some(0)));
    assert_eq!(cap_hint(true, (7, None)), (0, Some(0)));
    assert_eq!(cap_hint(true, (usize::MAX, Some(usize::MAX))), (0, Some(0)));
}

#[test]
fn cap_hint_of_an_active_adapter_drops_the_lower_bound_only() {
    assert_eq!(cap_hint(false, (0, Some(0))), (0, Some(0)));
    assert_eq!(cap_hint(false, (5, Some(9))), (0, Some(9)));
    assert_eq!(cap_hint(false, (7, None)), (0, None));
    assert_eq!(cap_hint(false, (usize::MAX, Some(usize::MAX))), (0, Some(usize::MAX)));
}

#[test]
fn cap_hint_never_raises_the_upper_bound() {
    let inners = [(0usize, Some(0usize)), (1, Some(1)), (3, Some(8)), (2, None)];
    for inner in inners {
        for done in [false, true] {
            let (lower, upper) = cap_hint(done, inner);
            assert_eq!(lower, 0);
            match (upper, inner.1) {
                (Some(a), Some(b)) => assert!(a <= b),
                (Some(_), None) => assert!(done),
                (None, None) => assert!(!done),
                (None, Some(_)) => panic!("an upper bound was lost"),
            }
        }
    }
}

#[test]
fn describe_lays_out_both_fields() {
    assert_eq!(describe("Iter([1, 2])", false), "TakeUntil { iter: Iter([1, 2]), flag: false }");
    assert_eq!(describe("Iter([1, 2])", true), "TakeUntil { iter: Iter([1, 2]), flag: true }");
    assert_eq!(describe("", true), "TakeUntil { iter: , flag: true }");
}

#[test]
fn probe_passes_the_answer_on() {
    let mut probe = Probe::new(|x: &i32| *x > 2);
    assert!(!probe.ask(&1));
    assert!(probe.ask(&3));
    assert!(!probe.ask(&2));
}

#[test]
fn probe_invokes_once_per_ask() {
    let mut calls = 0u32;
    {
        let mut probe = Probe::new(|_: &u8| {
            calls += 1;
            calls % 2 == 0
        });
        assert!(!probe.ask(&0));
        assert!(probe.ask(&0));
        assert!(!probe.ask(&0));
    }
    assert_eq!(calls, 3);
}

#[test]
fn describe_outcome_follows_the_printing_of_the_source() {
    assert_eq!(describe_outcome(None, false), None);
    assert_eq!(describe_outcome(None, true), None);
    assert_eq!(
        describe_outcome(Some(String::from("Iter([7])")), false),
        Some(String::from("TakeUntil { iter: Iter([7]), flag: false }"))
    );
    assert_eq!(
        describe_outcome(Some(String::new()), true),
        Some(String::from("TakeUntil { iter: , flag: true }"))
    );
}
