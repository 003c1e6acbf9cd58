//! What the client decides while it starts: where its configuration file
//! is, which backend it talks to, and what the backend's clock and first
//! fetch make of the initial state.

use vstd::prelude::*;
use vstd::view::View as _;

use crate::app::App;
use crate::dates::{day_in_range, parse_day, parsed_day};
use crate::gql::FetchAll;
use crate::text::{chars_of, push_decimal, push_str, string_of};

verus! {

/// `$XDG_CONFIG_HOME/preflight/config.toml` when that variable is set and
/// not empty, else `$HOME/.config/preflight/config.toml`, else nothing.
pub open spec fn config_path_spec(xdg: Option<Seq<char>>, home: Option<Seq<char>>) -> Option<Seq<char>> {
    match xdg {
        Some(x) if x.len() > 0 => Some(x + "/preflight/config.toml"@),
        _ => match home {
            Some(h) => Some(h + "/.config/preflight/config.toml"@),
            None => None,
        },
    }
}

/// The configuration file's path for the given environment values.
pub fn config_path_for(xdg: Option<&str>, home: Option<&str>) -> (r: Option<String>)
    ensures
        match (r, config_path_spec(
            match xdg {
                Some(x) => Some(x@),
                None => None,
            },
            match home {
                Some(h) => Some(h@),
                None => None,
            },
        )) {
            (Some(p), Some(q)) => p@ == q,
            (None, None) => true,
            _ => false,
        },
{
    match xdg {
        Some(x) => {
            if chars_of(x).len() > 0 {
                let mut t: Vec<char> = Vec::new();
                push_str(&mut t, x);
                push_str(&mut t, "/preflight/config.toml");
                return Some(string_of(t.as_slice()));
            }
        },
        None => {},
    }
    match home {
        Some(h) => {
            let mut t: Vec<char> = Vec::new();
            push_str(&mut t, h);
            push_str(&mut t, "/.config/preflight/config.toml");
            Some(string_of(t.as_slice()))
        },
        None => None,
    }
}

/// The endpoint used when nothing names one.
pub open spec fn default_endpoint() -> Seq<char> {
    "http://127.0.0.1:8000/graphql"@
}

/// The backend's GraphQL endpoint: the environment's override, else the
/// configured server's address, else the default.
pub open spec fn endpoint_spec(env: Option<Seq<char>>, server: Option<(Seq<char>, u16)>) -> Seq<char> {
    match env {
        Some(e) => e,
        None => match server {
            Some((host, port)) => "http://"@ + host + ":"@ + crate::text::decimal(port as nat)
                + "/graphql"@,
            None => default_endpoint(),
        },
    }
}

/// The backend's GraphQL endpoint for the environment's override and the
/// configured server, if any.
pub fn endpoint_for(env: Option<&str>, server: Option<(&str, u16)>) -> (r: String)
    ensures
        r@ == endpoint_spec(
            match env {
                Some(e) => Some(e@),
                None => None,
            },
            match server {
                Some(s) => Some((s.0@, s.1)),
                None => None,
            },
        ),
{
    match env {
        Some(e) => crate::text::owned(e),
        None => match server {
            Some((host, port)) => {
                let mut t: Vec<char> = Vec::new();
                push_str(&mut t, "http://");
                push_str(&mut t, host);
                push_str(&mut t, ":");
                push_decimal(&mut t, port as u128);
                push_str(&mut t, "/graphql");
                string_of(t.as_slice())
            },
            None => crate::text::owned("http://127.0.0.1:8000/graphql"),
        },
    }
}

impl App {
    /// Takes the backend's clock: the hour its logical day starts and, when
    /// its date parsed, the logical day (the review then shows the day
    /// before).
    pub fn apply_clock(&mut self, day_start_hour: i32, logical_day: Option<i32>)
        requires
            logical_day matches Some(d) ==> d > i32::MIN,
        ensures
            match logical_day {
                Some(d) => *final(self) == (App {
                    day_start_hour,
                    logical_date: d,
                    review_date: (d - 1) as i32,
                    ..*old(self)
                }),
                None => *final(self) == (App { day_start_hour, ..*old(self) }),
            },
    {
        self.day_start_hour = day_start_hour;
        match logical_day {
            Some(d) => {
                self.logical_date = d;
                self.review_date = d - 1;
            },
            None => {},
        }
    }

    /// Takes the backend's clock as it reports it: the hour its logical day
    /// starts and its logical date as `%Y-%m-%d` text. A date that parses
    /// becomes the logical day (the review then shows the day before); one
    /// that does not leaves the days as they were.
    pub fn apply_clock_text(&mut self, day_start_hour: i32, date: &str)
        ensures
            match parsed_day(date@) {
                Some(d) if day_in_range(d) => *final(self) == (App {
                    day_start_hour,
                    logical_date: d as i32,
                    review_date: (d - 1) as i32,
                    ..*old(self)
                }),
                _ => *final(self) == (App { day_start_hour, ..*old(self) }),
            },
    {
        let day = parse_day(date);
        self.apply_clock(day_start_hour, day);
    }

    /// Takes the first fetch: on success the data, the cursor moved to the
    /// first active row and the cursor's detail asked for; on failure an
    /// error toast `connect failed: …`.
    pub fn apply_first_fetch(&mut self, result: Result<FetchAll, String>)
        ensures
            match result {
                Ok(f) => crate::msg::fetched(*old(self), *final(self), f),
                Err(e) => *final(self) == (App {
                    toast: final(self).toast,
                    ..*old(self)
                }) && crate::app::toast_is(
                    final(self).toast,
                    crate::app::ToastKind::Error,
                    "connect failed: "@ + e@,
                ),
            },
    {
        match result {
            Ok(f) => {
                let generation = self.generation;
                self.take_fetch(generation, f);
            },
            Err(e) => {
                let mut t: Vec<char> = Vec::new();
                push_str(&mut t, "connect failed: ");
                push_str(&mut t, e.as_str());
                let m = string_of(t.as_slice());
                self.set_error(m.as_str());
            },
        }
    }
}

} // verus!
