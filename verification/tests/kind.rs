use trisult::{Acc, All, ContextStack, ContextStackMut, DefaultAcc, Diagnosed, Diagnosis, Most, Session, Trisult};

#[derive(Debug, Clone, Default, PartialEq, Eq)]
pub struct TraceStack {
    pub path: Vec<&'static str>,
}

impl ContextStack for TraceStack {
    type Captured = String;
}

impl ContextStackMut for TraceStack {
    type Segment = &'static str;

    fn capture(&self) -> Self::Captured {
        let mut buffer = String::new();
        for item in &self.path {
            buffer.push('/');
            buffer.push_str(item);
        }
        buffer
    }

    fn push(&mut self, segment: Self::Segment) {
        self.path.push(segment);
    }

    fn pop(&mut self) {
        self.path.pop();
    }
}

#[derive(Debug, Clone, PartialEq, Eq)]
pub enum MockWarn {
    MinorIssue,
}

#[derive(Debug, Clone, PartialEq, Eq)]
pub enum MockErr {
    FatalIssue,
}

pub type MockResult<T> = Trisult<T, MockWarn, MockErr, String>;

fn multiple_warnings<A: Acc>(stack: &mut TraceStack) -> MockResult<i32> {
    let mut frame = Session::new::<A>();
    stack.push("warn_node");
    let res = (|| {
        frame.warn(MockWarn::MinorIssue, stack.capture());
        frame.warn(MockWarn::MinorIssue, stack.capture());
        Some(42)
    })();
    stack.pop();
    frame.finish(res)
}

#[test]
fn test_dynamic_kind_all_warnings() {
    let mut stack = TraceStack::default();

    let res = multiple_warnings::<All>(&mut stack);

    if let Trisult::OkWith(Diagnosed(val, diags)) = res {
        assert_eq!(val, 42);
        let warnings = diags.into_vec();
        assert_eq!(warnings.len(), 2, "expected 2 warnings with All");
        assert_eq!(warnings[0].context, "/warn_node");
        assert_eq!(warnings[1].context, "/warn_node");
    } else {
        panic!("expected Ok");
    }
}

#[test]
fn test_dynamic_kind_most_warnings() {
    let mut stack = TraceStack::default();

    let res = multiple_warnings::<Most>(&mut stack);

    if let Trisult::OkWith(Diagnosed(val, diags)) = res {
        assert_eq!(val, 42);
        let warnings = diags.into_vec();
        assert_eq!(warnings.len(), 1, "expected 1 warning with Most");
    } else {
        panic!("expected Ok");
    }
}

fn warning_then_error<A: Acc>(stack: &mut TraceStack) -> MockResult<()> {
    let mut frame = Session::new::<A>();
    stack.push("mixed_node");
    let res: Option<()> = (|| {
        frame.warn(MockWarn::MinorIssue, stack.capture());
        frame.error(MockErr::FatalIssue, stack.capture());
        None
    })();
    stack.pop();
    frame.finish(res)
}

#[test]
fn test_dynamic_kind_all_mixed() {
    let mut stack = TraceStack::default();

    let res = warning_then_error::<All>(&mut stack);

    if let Trisult::ErrWith(diags) = res {
        let trace = diags.into_vec();
        assert_eq!(trace.len(), 2, "expected 2 diagnostics with All");

        assert!(matches!(
            trace[0].value,
            Diagnosis::Warning(MockWarn::MinorIssue)
        ));
        assert!(matches!(
            trace[1].value,
            Diagnosis::Error(MockErr::FatalIssue)
        ));
    } else {
        panic!("expected Err");
    }
}

#[test]
fn test_dynamic_kind_most_mixed_upgrades_priority() {
    let mut stack = TraceStack::default();

    let res = warning_then_error::<Most>(&mut stack);

    if let Trisult::ErrWith(diags) = res {
        let trace = diags.into_vec();
        assert_eq!(trace.len(), 1, "expected exactly 1 diagnostic with Most");

        assert!(matches!(
            trace[0].value,
            Diagnosis::Error(MockErr::FatalIssue)
        ));
        assert_eq!(trace[0].context, "/mixed_node");
    } else {
        panic!("expected Err");
    }
}

fn default_kind_func(_stack: &mut TraceStack) -> MockResult<()> {
    let mut frame = Session::new::<DefaultAcc>();
    let res = (|| {
        frame.warn(MockWarn::MinorIssue, _stack.capture());
        frame.warn(MockWarn::MinorIssue, _stack.capture());
        Some(())
    })();
    frame.finish(res)
}

#[test]
fn test_default_kind_is_all() {
    let mut stack = TraceStack::default();

    let res = default_kind_func(&mut stack);

    if let Trisult::OkWith(Diagnosed(_, diags)) = res {
        let warnings = diags.into_vec();
        assert_eq!(warnings.len(), 2, "fallback should default to All");
    } else {
        panic!("expected Ok");
    }
}
