use trisult::{
    Acc, AccState, AccumulatorKind, AccumulatorState, All, Contextual, ContextualIter, Contextuals,
    Diagnosed, Diagnoses, Diagnosis, MapIter, Most, MostAcc, NoLoc, Prioritized, PriorityLevel,
    Severity, Trisult,
};

#[derive(Debug, Clone, PartialEq)]
struct Item(&'static str, i64);

impl Prioritized for Item {
    type Priority = i64;
    fn spec_priority(&self) -> i64 {
        self.1
    }

    fn priority(&self) -> i64 {
        self.1
    }
}

fn names(mut iter: ContextualIter<'_, Item, NoLoc>) -> Vec<&'static str> {
    let mut out = Vec::new();
    while let Some(item) = iter.next() {
        out.push(item.value.0);
    }
    out
}

fn item(name: &'static str, level: i64) -> Contextual<Item, NoLoc> {
    Contextual::new(NoLoc, Item(name, level))
}

type Tri<T> = Trisult<T, &'static str, &'static str, u32>;

fn warnings(kind: AccumulatorKind, ws: &[(&'static str, u32)]) -> Contextuals<&'static str, u32> {
    let mut acc = Contextuals::new(AccumulatorState::new(kind));
    for (w, at) in ws {
        acc.push_naive(Contextual::new(*at, *w));
    }
    acc
}

fn errors(kind: AccumulatorKind, es: &[(&'static str, u32)]) -> Diagnoses<&'static str, &'static str, u32> {
    let mut acc = Contextuals::new(AccumulatorState::new(kind));
    for (e, at) in es {
        acc.push(Contextual::new(*at, Diagnosis::Error(*e)));
    }
    acc
}

fn show(d: &Diagnosis<&'static str, &'static str>) -> String {
    d.render(|w| w.to_string(), |e| e.to_string())
}

#[test]
fn most_keeps_the_first_item_of_highest_priority() {
    let mut acc = Contextuals::new(Most::create_state::<Item, NoLoc>());
    acc.extend(vec![item("a", 1), item("b", 3), item("c", 2), item("d", 3)]);
    assert_eq!(names(acc.iter()), ["b"]);
    assert_eq!(acc.ignored(), 3);
}

#[test]
fn all_keeps_everything_in_order() {
    let mut acc = Contextuals::new(All::create_state::<Item, NoLoc>());
    acc.extend(vec![item("a", 1), item("b", 3), item("c", 2)]);
    acc.push(item("d", 0));
    assert_eq!(names(acc.iter()), ["a", "b", "c", "d"]);
    assert_eq!(acc.ignored(), 0);
}

#[test]
fn every_item_is_either_kept_or_counted() {
    let mut most = Contextuals::new(Most::create_state::<Item, NoLoc>());
    most.push_naive(item("a", 1));
    most.push(item("b", 2));
    most.push(item("c", 2));
    let mut other = Contextuals::new(All::create_state::<Item, NoLoc>());
    other.extend(vec![item("d", 5), item("e", 0), item("f", 5)]);
    most.append(other.clone());
    assert_eq!(most.len() + most.ignored(), 6);
    assert_eq!(names(most.iter()), ["d"]);
    most.append_naive(other);
    assert_eq!(most.len() + most.ignored(), 9);
    assert_eq!(names(most.iter()), ["d"]);
}

#[test]
fn pushing_one_by_one_matches_appending() {
    let items = vec![item("a", 2), item("b", 7), item("c", 7), item("d", 1)];
    let mut pushed = Contextuals::new(Most::create_state::<Item, NoLoc>());
    pushed.extend(items.clone());
    let mut appended = Contextuals::new(Most::create_state::<Item, NoLoc>());
    let mut source = Contextuals::new(All::create_state::<Item, NoLoc>());
    source.extend(items);
    appended.append(source);
    assert_eq!(names(pushed.iter()), names(appended.iter()));
    assert_eq!(pushed.ignored(), appended.ignored());
}

#[test]
fn an_error_outranks_warnings_under_most() {
    let mut acc: Diagnoses<&str, &str, u32> = Contextuals::new(Most::create_state());
    acc.push(Contextual::new(1, Diagnosis::Warning("w1")));
    acc.push(Contextual::new(2, Diagnosis::Error("e1")));
    acc.push(Contextual::new(3, Diagnosis::Warning("w2")));
    acc.push(Contextual::new(4, Diagnosis::Error("e2")));
    let kept = acc.into_vec();
    assert_eq!(kept.len(), 1);
    assert_eq!(kept[0].value, Diagnosis::Error("e1"));
    assert_eq!(kept[0].context, 2);
    assert!(Severity::Warning.level() < Severity::Error.level());
}

#[test]
fn chaining_keeps_earlier_warnings() {
    let first: Tri<i32> = Trisult::OkWith(Diagnosed(1, warnings(AccumulatorKind::All, &[("w1", 1)])));
    let then_ok = first
        .clone()
        .and_then(|x| Trisult::OkWith(Diagnosed(x + 1, warnings(AccumulatorKind::All, &[("w2", 2)]))));
    let Diagnosed(value, ws) = then_ok.unwrap();
    assert_eq!(value, 2);
    let ws = ws.into_vec();
    assert_eq!(ws.len(), 2);
    assert_eq!((ws[0].value, ws[0].context), ("w1", 1));
    assert_eq!((ws[1].value, ws[1].context), ("w2", 2));

    let then_err = first.and_then(|_| Tri::<i32>::ErrWith(errors(AccumulatorKind::All, &[("e1", 3)])));
    let ds = then_err.err().unwrap().into_vec();
    assert_eq!(ds.len(), 2);
    assert_eq!(ds[0].value, Diagnosis::Warning("w1"));
    assert_eq!(ds[1].value, Diagnosis::Error("e1"));
}

#[test]
fn chaining_without_earlier_warnings_returns_the_next_result() {
    let first: Tri<i32> = Trisult::OkWith(Diagnosed(1, warnings(AccumulatorKind::Most, &[])));
    let mut next_errors = errors(AccumulatorKind::Most, &[("e1", 1), ("e2", 2)]);
    next_errors.push_naive(Contextual::new(3, Diagnosis::Warning("w")));
    let next: Tri<i32> = Trisult::ErrWith(next_errors);
    let chained = first.and_then(|_| next.clone());
    let ds = chained.err().unwrap();
    assert_eq!(ds.ignored(), 2);
    assert_eq!(ds.kind(), AccumulatorKind::Most);
}

#[test]
fn an_error_never_chains_further() {
    let failed: Tri<i32> = Trisult::ErrWith(errors(AccumulatorKind::All, &[("e", 1)]));
    let mut called = false;
    let res = failed.and_then(|x| {
        called = true;
        Trisult::OkWith(Diagnosed(x, warnings(AccumulatorKind::All, &[])))
    });
    assert!(!called);
    assert_eq!(res.err().unwrap().len(), 1);
}

#[test]
fn map_keeps_warnings_and_unpack_wraps_them() {
    let ok: Tri<i32> = Trisult::OkWith(Diagnosed(4, warnings(AccumulatorKind::All, &[("w", 9)])));
    let mapped = ok.map(|x| x * 10);
    let (value, diags) = mapped.unpack();
    assert_eq!(value, Some(40));
    let ds = diags.into_vec();
    assert_eq!(ds.len(), 1);
    assert_eq!(ds[0].value, Diagnosis::Warning("w"));
    assert_eq!(ds[0].context, 9);
}

#[test]
fn unwrap_as_warnings_undoes_wrapping() {
    let ws = warnings(AccumulatorKind::All, &[("a", 1), ("b", 2)]);
    let (_, diags) = Tri::<()>::OkWith(Diagnosed((), ws)).unpack();
    let back = diags.unwrap_as_warnings().into_vec();
    assert_eq!(back.len(), 2);
    assert_eq!((back[0].value, back[0].context), ("a", 1));
    assert_eq!((back[1].value, back[1].context), ("b", 2));
}

#[test]
fn unwrap_as_warnings_of_empty_resets_the_count() {
    let mut diags: Diagnoses<&str, &str, u32> = Contextuals::new(Most::create_state());
    diags.append_naive(Contextuals::new(Most::create_state()));
    let ws = diags.unwrap_as_warnings();
    assert!(ws.is_empty());
    assert_eq!(ws.ignored(), 0);
    assert_eq!(ws.kind(), AccumulatorKind::Most);
}

#[test]
fn map_errors_and_warnings_touch_only_their_side() {
    let mut diags: Diagnoses<&str, &str, u32> = Contextuals::new(All::create_state());
    diags.push(Contextual::new(1, Diagnosis::Warning("w")));
    diags.push(Contextual::new(2, Diagnosis::Error("e")));
    let errs_mapped = diags.clone().map_errors(|e: &str| e.len());
    let items = errs_mapped.into_vec();
    assert_eq!(items[0].value, Diagnosis::Warning("w"));
    assert_eq!(items[1].value, Diagnosis::Error(1));
    let warns_mapped = diags.map_warnings(|w: &str| w.to_uppercase());
    let items = warns_mapped.into_vec();
    assert_eq!(items[0].value, Diagnosis::Warning("W".to_string()));
    assert_eq!(items[1].value, Diagnosis::Error("e"));
}

#[test]
fn accumulating_steps_conclude_as_expected() {
    let mut diags: Diagnoses<&str, &str, u32> = Contextuals::new(All::create_state());
    let mut has_errors = false;
    let first: Tri<i32> = Trisult::OkWith(Diagnosed(1, warnings(AccumulatorKind::All, &[("w", 1)])));
    assert_eq!(first.__macro_tri_unpack(&mut diags, &mut has_errors), Some(1));
    assert!(!has_errors);
    let done = Trisult::__macro_conclude(Some(5), diags.clone(), has_errors);
    let Diagnosed(v, ws) = done.unwrap();
    assert_eq!(v, 5);
    assert_eq!(ws.len(), 1);

    let no_value: Tri<i32> = Trisult::__macro_conclude(None, diags.clone(), false);
    assert!(no_value.is_err());

    let second: Tri<i32> = Trisult::ErrWith(errors(AccumulatorKind::All, &[("e", 2)]));
    assert_eq!(second.__macro_tri_unpack(&mut diags, &mut has_errors), None);
    assert!(has_errors);
    assert_eq!(diags.len(), 2);
    let failed: Tri<i32> = Trisult::__macro_conclude(Some(1), diags, has_errors);
    assert_eq!(failed.err().unwrap().len(), 2);
}

#[test]
fn tri_unpack_into_empty_diagnoses_takes_them_over() {
    let mut diags: Diagnoses<&str, &str, u32> = Contextuals::new(All::create_state());
    let mut has_errors = false;
    let mut errs = errors(AccumulatorKind::Most, &[("e1", 1), ("e2", 2)]);
    errs.push_naive(Contextual::new(3, Diagnosis::Warning("w")));
    let failed: Tri<i32> = Trisult::ErrWith(errs);
    assert_eq!(failed.__macro_tri_unpack(&mut diags, &mut has_errors), None);
    assert!(has_errors);
    assert_eq!(diags.kind(), AccumulatorKind::Most);
    assert_eq!(diags.ignored(), 2);
}

#[test]
fn rendering_lists_items_and_ignored_count() {
    let mut diags: Diagnoses<&str, &str, u32> = Contextuals::new(All::create_state());
    diags.push(Contextual::new(3, Diagnosis::Warning("slow")));
    diags.push(Contextual::new(7, Diagnosis::Error("down")));
    let text = diags.render(|c: &u32| format!("at {c}"), show);
    assert_eq!(text, "at 3: warning: slow\nat 7: error: down");

    let mut most: Diagnoses<&str, &str, u32> = Contextuals::new(Most::create_state());
    for i in 0..1235 {
        most.push(Contextual::new(i, Diagnosis::Error("e")));
    }
    let text = most.render(|c: &u32| c.to_string(), show);
    assert_eq!(text, "0: error: e\n... 1234 ignored");

    let nothing: Diagnoses<&str, &str, u32> = Contextuals::new(All::create_state());
    assert_eq!(nothing.render(|c: &u32| c.to_string(), show), "");
    assert_eq!(NoLoc.render(), "no-location");
    assert_eq!(
        Contextual::new(NoLoc, "v").render(|c: &NoLoc| c.render(), |v: &&str| v.to_string()),
        "no-location: v"
    );
}

#[test]
fn ignored_counts_carry_over_appends() {
    let mut state = MostAcc::<Item, NoLoc>::new();
    assert!(state.push_naive(item("kept", 1)));
    let mut other = Contextuals::new(state);
    other.push_naive(item("x", 0));
    other.push_naive(item("y", 0));
    assert_eq!(other.ignored(), 2);
    let mut acc = Contextuals::new(Most::create_state::<Item, NoLoc>());
    acc.append_naive(other.clone());
    assert_eq!(acc.len(), 1);
    assert_eq!(acc.ignored(), 2);
    acc.append_naive(other);
    assert_eq!(acc.ignored(), 5);
    assert_eq!(names(acc.iter()), ["kept"]);
}

#[test]
fn map_iter_maps_in_order() {
    let mut diags: Diagnoses<&str, &str, u32> = Contextuals::new(All::create_state());
    diags.push(Contextual::new(1, Diagnosis::Warning("a")));
    diags.push(Contextual::new(2, Diagnosis::Error("bb")));
    let mut it = MapIter::new(diags.into_vec(), |w: &str| w.len(), |e: &str| e.len() * 10);
    assert_eq!(it.len(), 2);
    let first = it.next().unwrap();
    assert_eq!((first.context, first.value), (1, Diagnosis::Warning(1)));
    let second = it.next().unwrap();
    assert_eq!((second.context, second.value), (2, Diagnosis::Error(20)));
    assert!(it.next().is_none());
    assert_eq!(it.size_hint(), (0, Some(0)));
}

#[test]
fn state_kinds_and_naive_append_across_policies() {
    let mut all: AccumulatorState<Item, NoLoc> = AccumulatorState::new(AccumulatorKind::All);
    let mut most: AccumulatorState<Item, NoLoc> = AccumulatorState::new(AccumulatorKind::Most);
    most.push(item("m", 1));
    assert_eq!(all.append_naive(most.clone()), 0);
    assert_eq!(all.len(), 1);
    let mut many = AccumulatorState::new(AccumulatorKind::All);
    many.push(item("x", 1));
    many.push(item("y", 9));
    let mut empty_most: AccumulatorState<Item, NoLoc> = AccumulatorState::new(AccumulatorKind::Most);
    assert_eq!(empty_most.append_naive(many.clone()), 1);
    assert_eq!(names(empty_most.iter()), ["x"]);
    let mut empty_most: AccumulatorState<Item, NoLoc> = AccumulatorState::new(AccumulatorKind::Most);
    assert_eq!(empty_most.append(many), 0);
    assert_eq!(names(empty_most.iter()), ["y"]);
    assert_eq!(most.kind(), AccumulatorKind::Most);
}

#[test]
fn single_diagnoses_map_only_their_side() {
    let w: Diagnosis<&str, &str> = Diagnosis::Warning("w");
    let e: Diagnosis<&str, &str> = Diagnosis::Error("err");
    assert_eq!(w.clone().map_errors(|x: &str| x.len()), Diagnosis::Warning("w"));
    assert_eq!(e.clone().map_errors(|x: &str| x.len()), Diagnosis::Error(3));
    assert_eq!(w.clone().map_warnings(|x: &str| x.len()), Diagnosis::Warning(1));
    assert_eq!(e.clone().map_warnings(|x: &str| x.len()), Diagnosis::Error("err"));

    let cw = Contextual::new(7u32, w);
    let mapped = cw.map_warnings(|x: &str| x.to_uppercase());
    assert_eq!(mapped.context, 7);
    assert_eq!(mapped.value, Diagnosis::Warning("W".to_string()));
    let ce = Contextual::new(8u32, e).map_errors(|x: &str| x.len());
    assert_eq!((ce.context, ce.value), (8, Diagnosis::Error(3)));
}

#[test]
fn trisult_maps_and_converts() {
    let ok: Tri<i32> = Trisult::OkWith(Diagnosed(2, warnings(AccumulatorKind::All, &[("w", 1)])));
    let mapped = ok.clone().map_warnings(|w: &str| w.len());
    let Diagnosed(v, ws) = mapped.unwrap();
    assert_eq!(v, 2);
    assert_eq!(ws.into_vec()[0].value, 1);
    let kept = ok.clone().map_errors(|e: &str| e.len()).unwrap();
    assert_eq!(kept.1.into_vec()[0].value, "w");
    match ok.into_result() {
        Ok(Diagnosed(v, _)) => assert_eq!(v, 2),
        Err(_) => panic!("expected Ok"),
    }
    let failed: Tri<i32> = Trisult::ErrWith(errors(AccumulatorKind::All, &[("e", 1)]));
    let res: Result<_, _> = failed.into();
    assert_eq!(res.err().unwrap().len(), 1);
}

#[test]
fn decimal_rendering() {
    assert_eq!(trisult::decimal_text(0), "0");
    assert_eq!(trisult::decimal_text(7), "7");
    assert_eq!(trisult::decimal_text(10), "10");
    assert_eq!(trisult::decimal_text(1234567), "1234567");
    assert_eq!(trisult::decimal_text(usize::MAX), usize::MAX.to_string());
}

#[test]
fn runtime_state_push_reports_what_it_stored() {
    let mut most: AccumulatorState<Item, NoLoc> = AccumulatorState::new(AccumulatorKind::Most);
    assert!(most.push(item("low", 10)));
    assert!(most.push(item("high", 30))); // replaces the held item: stored
    assert!(!most.push(item("tie", 30))); // equal priority: left out
    assert!(!most.push(item("lower", 1)));
    assert_eq!(names(most.iter()), ["high"]);

    let mut held: AccumulatorState<Item, NoLoc> = AccumulatorState::new(AccumulatorKind::Most);
    held.push(item("ten", 10));
    let mut other: AccumulatorState<Item, NoLoc> = AccumulatorState::new(AccumulatorKind::Most);
    other.push(item("thirty", 30));
    assert_eq!(held.append(other.clone()), 0);
    assert_eq!(names(held.iter()), ["thirty"]);
    assert_eq!(held.append(other), 1);

    // The accumulator still counts a pushed-out item as ignored.
    let mut acc = Contextuals::new(Most::create_state::<Item, NoLoc>());
    acc.push(item("ten", 10));
    acc.push(item("thirty", 30));
    assert_eq!(acc.ignored(), 1);
}

#[test]
fn session_fails_exactly_on_an_error_and_keeps_order() {
    let mut ok_session = trisult::Session::<&str, &str, u32>::new::<All>();
    ok_session.warn("w1", 1);
    let inner: Tri<i32> = Trisult::OkWith(Diagnosed(3, warnings(AccumulatorKind::All, &[("w2", 2)])));
    assert_eq!(ok_session.tri(inner), Some(3));
    let Diagnosed(v, ws) = ok_session.finish(Some(7)).unwrap();
    assert_eq!(v, 7);
    let ws = ws.into_vec();
    assert_eq!((ws[0].value, ws[1].value), ("w1", "w2"));

    let mut no_value = trisult::Session::<&str, &str, u32>::new::<All>();
    no_value.warn("w", 1);
    assert!(no_value.finish::<i32>(None).is_err());

    let mut failing = trisult::Session::<&str, &str, u32>::new::<All>();
    failing.warn("w1", 1);
    let inner: Tri<i32> = Trisult::ErrWith(errors(AccumulatorKind::All, &[("e1", 2)]));
    assert_eq!(failing.tri(inner), None);
    failing.warn("w2", 3);
    let ds = failing.finish(Some(1)).err().unwrap().into_vec();
    assert_eq!(
        ds.iter().map(|d| (d.context, d.value.clone())).collect::<Vec<_>>(),
        vec![(1, Diagnosis::Warning("w1")), (2, Diagnosis::Error("e1")), (3, Diagnosis::Warning("w2"))]
    );

    let mut most = trisult::Session::<&str, &str, u32>::new::<Most>();
    most.warn("w", 1);
    most.error("e", 2);
    let ds = most.finish::<()>(None).err().unwrap();
    assert_eq!(ds.len(), 1);
    assert_eq!(ds.ignored(), 1);
}
