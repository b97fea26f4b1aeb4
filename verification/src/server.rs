//! What the server is started with.

use vstd::prelude::*;
use vstd::string::*;
use std::sync::Arc;
use crate::config::AppConfig;
use crate::text::{find_char_from, same_text};

verus! {

/// Builds the server from its configuration.
#[derive(Debug)]
pub struct ServerBuilder {
    pub cfg: Arc<AppConfig>,
}

/// The pieces of `s` between the occurrences of `sep`, in order; a text without
/// `sep` is one piece.
pub open spec fn pieces(s: Seq<char>, sep: char) -> Seq<Seq<char>>
    decreases s.len(),
{
    let at = crate::text::first_index_of(s, sep);
    if at < 0 || at >= s.len() {
        seq![s]
    } else {
        seq![s.subrange(0, at)] + pieces(s.subrange(at + 1, s.len() as int), sep)
    }
}

/// Splits `s` at every `sep`.
pub fn split(s: &str, sep: char) -> (parts: Vec<String>)
    ensures
        parts.deep_view() == pieces(s@, sep),
{
    let len = s.unicode_len();
    let mut parts: Vec<String> = Vec::new();
    let mut start: usize = 0;
    proof {
        assert(s@.subrange(0, len as int) =~= s@);
        assert(parts.deep_view() =~= Seq::<Seq<char>>::empty());
    }
    loop
        invariant
            start <= len,
            len == s@.len(),
            parts.deep_view() + pieces(s@.subrange(start as int, len as int), sep) == pieces(
                s@,
                sep,
            ),
        decreases len - start,
    {
        let at = find_char_from(s, sep, start);
        let ghost rest = s@.subrange(start as int, len as int);
        let ghost before = parts.deep_view();
        proof {
            crate::text::lemma_first_index_of(rest, sep);
            let k = crate::text::first_index_of(rest, sep);
            if k < at - start {
                assert(rest[k] == s@[start + k]);
            }
            if at - start < k {
                assert(rest[at - start] == s@[at as int]);
            }
            assert(k == at - start);
        }
        let piece = s.substring_char(start, at).to_string();
        parts.push(piece);
        proof {
            assert(parts.deep_view() =~= before + seq![piece@]);
            assert(piece@ =~= rest.subrange(0, at - start));
        }
        if at >= len {
            proof {
                assert(piece@ =~= rest);
                assert(pieces(rest, sep) == seq![rest]);
            }
            return parts;
        }
        proof {
            assert(rest.subrange(at - start + 1, rest.len() as int) =~= s@.subrange(
                at + 1,
                len as int,
            ));
            assert(before + (seq![piece@] + pieces(s@.subrange(at + 1, len as int), sep)) =~= (
            before + seq![piece@]) + pieces(s@.subrange(at + 1, len as int), sep));
        }
        start = at + 1;
    }
}

impl ServerBuilder {
    /// A builder for the configuration.
    pub fn new(cfg: Arc<AppConfig>) -> (builder: Self)
        ensures
            builder.cfg == cfg,
    {
        Self { cfg }
    }

    /// Tells whether the server runs on a developer's machine. Everywhere else the
    /// schema is migrated at start and cookies are restricted to TLS.
    pub fn is_local(&self) -> (local: bool)
        ensures
            local == (self.cfg.app_env@ == "local"@),
    {
        same_text(self.cfg.app_env.as_str(), "local")
    }

    /// The origins that may call the service, as configured in one text, separated
    /// by commas.
    pub fn allowed_origins(&self) -> (origins: Vec<String>)
        ensures
            origins.deep_view() == pieces(self.cfg.allowed_origins@, ','),
    {
        split(self.cfg.allowed_origins.as_str(), ',')
    }
}

} // verus!
