use std::ops::Deref;
use trisult::{Contextual, ContextualIter, DefaultAcc, Diagnosed, Diagnosis, Session, Trisult};

fn collect<'a, T, C>(mut iter: ContextualIter<'a, T, C>) -> Vec<Contextual<&'a T, &'a C>> {
    let mut items = Vec::new();
    while let Some(item) = iter.next() {
        items.push(item);
    }
    items
}

#[derive(Debug, Clone, PartialEq, Eq)]
pub struct Offset(pub usize);

pub struct Span<'a> {
    str: &'a str,
    at: usize,
}

impl<'a> Span<'a> {
    pub fn new(str: &'a str, at: usize) -> Self {
        Self { str, at }
    }

    pub fn at(&self) -> Offset {
        Offset(self.at)
    }
}

impl<'a> Deref for Span<'a> {
    type Target = str;

    fn deref(&self) -> &Self::Target {
        self.str
    }
}

#[derive(Debug, Clone, PartialEq)]
pub enum ConfigWarn {
    Deprecated(&'static str),
    Unconventional(&'static str),
}

#[derive(Debug, Clone, PartialEq)]
pub enum ConfigErr {
    MissingField(&'static str),
    InvalidFormat(&'static str),
}

pub type ConfigResult<T> = Trisult<T, ConfigWarn, ConfigErr, Offset>;

#[derive(Debug, Clone, PartialEq)]
pub struct Config {
    version: i32,
    name: String,
}

fn parse_version(version: Span) -> ConfigResult<i32> {
    let mut frame = Session::new::<DefaultAcc>();
    let res = (|| match version.deref() {
        "v2" => Some(2),
        "v1" => {
            frame.warn(ConfigWarn::Deprecated("v1 is legacy"), version.at());
            Some(1)
        }
        _ => {
            frame.error(ConfigErr::InvalidFormat("unknown version"), version.at());
            None
        }
    })();
    frame.finish(res)
}

fn parse_name(name: Span) -> ConfigResult<String> {
    let mut frame = Session::new::<DefaultAcc>();
    let res = (|| {
        if name.is_empty() {
            frame.error(ConfigErr::MissingField("name"), name.at());
            return None;
        }

        if name.chars().next().unwrap().is_lowercase() {
            frame.warn(ConfigWarn::Unconventional("Names should be capitalized"), name.at());
        }

        Some(name.to_string())
    })();
    frame.finish(res)
}

fn parse_config(version: Span, name: Span) -> ConfigResult<Config> {
    let mut frame = Session::new::<DefaultAcc>();
    let res = (|| {
        let version = frame.tri(parse_version(version))?;
        let name = frame.tri(parse_name(name))?;
        Some(Config { version, name })
    })();
    frame.finish(res)
}

#[test]
fn test_parse_config() {
    match parse_config(Span::new("v2", 1), Span::new("Alice", 2)) {
        Trisult::OkWith(Diagnosed(val, diags)) => {
            assert_eq!(val.version, 2);
            assert_eq!(val.name, "Alice");
            assert!(diags.is_empty());
        }
        Trisult::ErrWith(_) => panic!("Expected Trisult::Ok, but got Trisult::Err"),
    }
}

#[test]
fn test_parse_config_with_warnings() {
    match parse_config(Span::new("v1", 5), Span::new("bob", 6)) {
        Trisult::OkWith(Diagnosed(val, diags)) => {
            assert_eq!(val.version, 1);
            assert_eq!(val.name, "bob");

            let accumulated_warnings = collect(diags.iter());
            assert_eq!(accumulated_warnings.len(), 2);

            assert_eq!(accumulated_warnings[0].context.0, 5);
            assert!(matches!(
                accumulated_warnings[0].value,
                ConfigWarn::Deprecated(_)
            ));

            assert_eq!(accumulated_warnings[1].context.0, 6);
            assert!(matches!(
                accumulated_warnings[1].value,
                ConfigWarn::Unconventional(_)
            ));
        }
        Trisult::ErrWith(_) => panic!("Expected Trisult::Ok, but got Trisult::Err"),
    }
}

#[test]
fn test_parse_config_with_error() {
    match parse_config(Span::new("v1", 10), Span::new("", 11)) {
        Trisult::OkWith(_) => panic!("Expected Trisult::Err, but got Trisult::Ok"),
        Trisult::ErrWith(diags) => {
            let accumulated_diags = collect(diags.iter());

            assert_eq!(accumulated_diags.len(), 2);

            assert_eq!(accumulated_diags[0].context.0, 10);
            assert!(matches!(
                accumulated_diags[0].value,
                Diagnosis::Warning(ConfigWarn::Deprecated(_))
            ));

            assert_eq!(accumulated_diags[1].context.0, 11);
            assert!(matches!(
                accumulated_diags[1].value,
                Diagnosis::Error(ConfigErr::MissingField("name"))
            ));
        }
    }
}

