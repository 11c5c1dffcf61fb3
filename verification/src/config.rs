//! Indexer configuration values.

use vstd::prelude::*;

use crate::text::string_push;

verus! {

/// The first segment of the name: everything before the first `_`, or
/// the whole name when it has none.
pub open spec fn spec_first_segment(s: Seq<char>) -> Seq<char>
    decreases s.len(),
{
    if s.len() == 0 {
        Seq::empty()
    } else if s[0] == '_' {
        Seq::empty()
    } else {
        seq![s[0]] + spec_first_segment(s.skip(1))
    }
}

/// The server name derived from a processor name: the part before the
/// first `_`, trimmed to 12 characters.
pub open spec fn spec_server_name(s: Seq<char>) -> Seq<char> {
    if spec_first_segment(s).len() <= 12 {
        spec_first_segment(s)
    } else {
        spec_first_segment(s).take(12)
    }
}

/// Derives the short server name from a processor name.
pub fn get_server_name(processor_name: &str) -> (r: String)
    ensures
        r@ == spec_server_name(processor_name@),
{
    let n = processor_name.unicode_len();
    let mut out = String::new();
    let mut i: usize = 0;
    proof {
        assert(processor_name@.take(0) =~= Seq::<char>::empty());
        assert(processor_name@.skip(0) =~= processor_name@);
        assert(spec_first_segment(processor_name@.take(0)) =~= Seq::<char>::empty());
        assert(out@ =~= spec_server_name(processor_name@.take(0)));
    }
    while i < n
        invariant
            n == processor_name@.len(),
            i <= n,
            forall|j: int| 0 <= j < i ==> processor_name@[j] != '_',
            spec_first_segment(processor_name@) == processor_name@.take(i as int)
                + spec_first_segment(processor_name@.skip(i as int)),
            out@ == spec_server_name(processor_name@.take(i as int)),
        decreases n - i,
    {
        let c = processor_name.get_char(i);
        proof {
            assert(processor_name@.skip(i as int)[0] == processor_name@[i as int]);
            assert(processor_name@.skip(i as int).skip(1) =~= processor_name@.skip(i + 1));
            lemma_first_segment_no_sep(processor_name@.take(i as int));
        }
        if c == '_' {
            proof {
                assert(spec_first_segment(processor_name@.skip(i as int)) =~= Seq::<
                    char,
                >::empty());
                assert(spec_first_segment(processor_name@) =~= processor_name@.take(i as int));
            }
            return out;
        }
        if i < 12 {
            string_push(&mut out, c);
            proof {
                lemma_first_segment_no_sep(processor_name@.take(i + 1));
                assert(processor_name@.take(i + 1) =~= processor_name@.take(i as int).push(c));
                assert(out@ =~= spec_server_name(processor_name@.take(i + 1)));
            }
        } else {
            proof {
                lemma_first_segment_no_sep(processor_name@.take(i + 1));
                assert(processor_name@.take(i + 1) =~= processor_name@.take(i as int).push(c));
                assert(processor_name@.take(i + 1).take(12) =~= processor_name@.take(
                    i as int,
                ).take(12));
                assert(out@ =~= spec_server_name(processor_name@.take(i + 1)));
            }
        }
        proof {
            assert(seq![processor_name@[i as int]] + spec_first_segment(
                processor_name@.skip(i + 1),
            ) =~= spec_first_segment(processor_name@.skip(i as int)));
            assert(processor_name@.take(i as int) + spec_first_segment(
                processor_name@.skip(i as int),
            ) =~= processor_name@.take(i + 1) + spec_first_segment(processor_name@.skip(i + 1)));
        }
        i = i + 1;
    }
    proof {
        assert(processor_name@.skip(n as int) =~= Seq::<char>::empty());
        assert(spec_first_segment(processor_name@.skip(n as int)) =~= Seq::<char>::empty());
        assert(spec_first_segment(processor_name@) =~= processor_name@.take(n as int));
        assert(processor_name@.take(n as int) =~= processor_name@);
    }
    out
}

/// A segment cut off before any `_` is its own first segment.
proof fn lemma_first_segment_no_sep(s: Seq<char>)
    requires
        forall|j: int| 0 <= j < s.len() ==> s[j] != '_',
    ensures
        spec_first_segment(s) == s,
    decreases s.len(),
{
    if s.len() == 0 {
    } else {
        assert(forall|j: int| 0 <= j < s.skip(1).len() ==> s.skip(1)[j] != '_');
        lemma_first_segment_no_sep(s.skip(1));
        assert(seq![s[0]] + s.skip(1) =~= s);
    }
}

/// Database connection settings, as read from the configuration file.
pub struct DbConfig {
    pub postgres_connection_string: String,
    /// Size of the pool for writes/reads to the DB. Limits maximum number
    /// of queries in flight.
    pub db_pool_size: u32,
}

impl DbConfig {
    /// Pool size used when the configuration does not give one.
    pub fn default_db_pool_size() -> (r: u32)
        ensures
            r == 50,
    {
        50
    }
}

/// Indexer-specific part of the configuration: which contracts to follow.
pub enum CustomConfig {
    /// Addresses of the contracts whose package upgrades are indexed.
    ContractUpgradeIndexer(Vec<String>),
    /// Address of the marketplace contract whose events are indexed.
    MarketplaceIndexer(String),
}

} // verus!
