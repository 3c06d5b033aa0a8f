//! Terminal coloring, through the `colored` crate.
//!
//! `colored` decides at display time whether to emit ANSI styling at all (it
//! consults the environment and the terminal), so nothing exact can be said
//! of its output. What its source does show, for an input that holds no
//! ANSI escape character, is that the input text comes back whole and
//! contiguous, either bare or between one style prefix and one reset suffix.
//! The trusted wrappers below state exactly that; the public painters guard
//! the call with an executable escape scan, so their `wraps` contract holds
//! of every input.

use vstd::prelude::*;
use colored::Colorize;
use crate::text::esc_free;
use crate::text::is_esc_free;
use crate::text::lemma_wraps_self;
use crate::text::wraps;

verus! {

/// Relies on colored's Colorize::cyan and ColoredString's Display: an
/// escape-free input is emitted whole, bare or between a style prefix and a
/// reset suffix.
#[verifier::external_body]
fn style_cyan(s: &str) -> (r: String)
    ensures
        esc_free(s@) ==> wraps(r@, s@),
{
    s.cyan().to_string()
}

/// Relies on colored's Colorize::yellow and ColoredString's Display, as above.
#[verifier::external_body]
fn style_yellow(s: &str) -> (r: String)
    ensures
        esc_free(s@) ==> wraps(r@, s@),
{
    s.yellow().to_string()
}

/// Relies on colored's Colorize::green and ColoredString's Display, as above.
#[verifier::external_body]
fn style_green(s: &str) -> (r: String)
    ensures
        esc_free(s@) ==> wraps(r@, s@),
{
    s.green().to_string()
}

/// Relies on colored's Colorize::red and ColoredString's Display, as above.
#[verifier::external_body]
fn style_red(s: &str) -> (r: String)
    ensures
        esc_free(s@) ==> wraps(r@, s@),
{
    s.red().to_string()
}

/// Relies on colored's Colorize::blue and ColoredString's Display, as above.
#[verifier::external_body]
fn style_blue(s: &str) -> (r: String)
    ensures
        esc_free(s@) ==> wraps(r@, s@),
{
    s.blue().to_string()
}

/// Relies on colored's Colorize::dimmed and ColoredString's Display, as above.
#[verifier::external_body]
fn style_dimmed(s: &str) -> (r: String)
    ensures
        esc_free(s@) ==> wraps(r@, s@),
{
    s.dimmed().to_string()
}

/// Relies on colored's Colorize::red and Colorize::bold (one combined style
/// prefix) and ColoredString's Display, as above.
#[verifier::external_body]
fn style_red_bold(s: &str) -> (r: String)
    ensures
        esc_free(s@) ==> wraps(r@, s@),
{
    s.red().bold().to_string()
}

/// Relies on colored's Colorize::cyan and Colorize::bold and ColoredString's
/// Display, as above.
#[verifier::external_body]
fn style_cyan_bold(s: &str) -> (r: String)
    ensures
        esc_free(s@) ==> wraps(r@, s@),
{
    s.cyan().bold().to_string()
}

/// Relies on colored's Colorize::blue and Colorize::bold and ColoredString's
/// Display, as above.
#[verifier::external_body]
fn style_blue_bold(s: &str) -> (r: String)
    ensures
        esc_free(s@) ==> wraps(r@, s@),
{
    s.blue().bold().to_string()
}

/// Relies on colored's Colorize::green and Colorize::bold and ColoredString's
/// Display, as above.
#[verifier::external_body]
fn style_green_bold(s: &str) -> (r: String)
    ensures
        esc_free(s@) ==> wraps(r@, s@),
{
    s.green().bold().to_string()
}

/// `s` painted cyan when that is safe to state, otherwise bare.
pub fn painted_cyan(s: &str) -> (r: String)
    ensures
        wraps(r@, s@),
{
    if is_esc_free(s) {
        style_cyan(s)
    } else {
        proof {
            lemma_wraps_self(s@);
        }
        s.to_owned()
    }
}

/// `s` painted yellow when that is safe to state, otherwise bare.
pub fn painted_yellow(s: &str) -> (r: String)
    ensures
        wraps(r@, s@),
{
    if is_esc_free(s) {
        style_yellow(s)
    } else {
        proof {
            lemma_wraps_self(s@);
        }
        s.to_owned()
    }
}

/// `s` painted green when that is safe to state, otherwise bare.
pub fn painted_green(s: &str) -> (r: String)
    ensures
        wraps(r@, s@),
{
    if is_esc_free(s) {
        style_green(s)
    } else {
        proof {
            lemma_wraps_self(s@);
        }
        s.to_owned()
    }
}

/// `s` painted red when that is safe to state, otherwise bare.
pub fn painted_red(s: &str) -> (r: String)
    ensures
        wraps(r@, s@),
{
    if is_esc_free(s) {
        style_red(s)
    } else {
        proof {
            lemma_wraps_self(s@);
        }
        s.to_owned()
    }
}

/// `s` painted blue when that is safe to state, otherwise bare.
pub fn painted_blue(s: &str) -> (r: String)
    ensures
        wraps(r@, s@),
{
    if is_esc_free(s) {
        style_blue(s)
    } else {
        proof {
            lemma_wraps_self(s@);
        }
        s.to_owned()
    }
}

/// `s` dimmed when that is safe to state, otherwise bare.
pub fn painted_dimmed(s: &str) -> (r: String)
    ensures
        wraps(r@, s@),
{
    if is_esc_free(s) {
        style_dimmed(s)
    } else {
        proof {
            lemma_wraps_self(s@);
        }
        s.to_owned()
    }
}

/// `s` painted bold red when that is safe to state, otherwise bare.
pub fn painted_red_bold(s: &str) -> (r: String)
    ensures
        wraps(r@, s@),
{
    if is_esc_free(s) {
        style_red_bold(s)
    } else {
        proof {
            lemma_wraps_self(s@);
        }
        s.to_owned()
    }
}

/// `s` painted bold cyan when that is safe to state, otherwise bare.
pub fn painted_cyan_bold(s: &str) -> (r: String)
    ensures
        wraps(r@, s@),
{
    if is_esc_free(s) {
        style_cyan_bold(s)
    } else {
        proof {
            lemma_wraps_self(s@);
        }
        s.to_owned()
    }
}

/// `s` painted bold blue when that is safe to state, otherwise bare.
pub fn painted_blue_bold(s: &str) -> (r: String)
    ensures
        wraps(r@, s@),
{
    if is_esc_free(s) {
        style_blue_bold(s)
    } else {
        proof {
            lemma_wraps_self(s@);
        }
        s.to_owned()
    }
}

/// `s` painted bold green when that is safe to state, otherwise bare.
pub fn painted_green_bold(s: &str) -> (r: String)
    ensures
        wraps(r@, s@),
{
    if is_esc_free(s) {
        style_green_bold(s)
    } else {
        proof {
            lemma_wraps_self(s@);
        }
        s.to_owned()
    }
}

} // verus!
