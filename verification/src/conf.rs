//! Logging and TLS configuration: where logs go, what the telemetry
//! exporter is set up with, and the ALPN protocols offered.

use vstd::prelude::*;
use crate::text::owned;

verus! {

/// The position of the first `c` in `s`.
pub open spec fn first_index_of(s: Seq<char>, c: char) -> Option<int>
    decreases s.len(),
{
    if s.len() == 0 {
        None
    } else if s[0] == c {
        Some(0)
    } else {
        match first_index_of(s.drop_first(), c) {
            Some(i) => Some(i + 1),
            None => None,
        }
    }
}

/// `s` cut at its first `c`, that character left out, as std's
/// `split_once` does.
pub open spec fn split_once(s: Seq<char>, c: char) -> Option<(Seq<char>, Seq<char>)> {
    match first_index_of(s, c) {
        Some(i) => Some((s.take(i), s.skip(i + 1))),
        None => None,
    }
}

proof fn lemma_first_index_of(s: Seq<char>, c: char, k: int)
    requires
        0 <= k <= s.len(),
        forall|j: int| 0 <= j < k ==> s[j] != c,
    ensures
        k < s.len() && s[k] == c ==> first_index_of(s, c) == Some(k),
        k == s.len() ==> first_index_of(s, c) is None,
    decreases k,
{
    if k > 0 {
        assert forall|j: int| 0 <= j < k - 1 implies s.drop_first()[j] != c by {
            assert(s.drop_first()[j] == s[j + 1]);
        }
        lemma_first_index_of(s.drop_first(), c, k - 1);
    }
}

/// Cuts `s` at its first `c`.
pub fn split_once_char(s: &str, c: char) -> (res: Option<(String, String)>)
    ensures
        match res {
            Some((a, b)) => split_once(s@, c) == Some((a@, b@)),
            None => split_once(s@, c) is None,
        },
{
    let len = s.unicode_len();
    let mut k: usize = 0;
    while k < len
        invariant
            k <= len,
            len == s@.len(),
            forall|j: int| 0 <= j < k ==> s@[j] != c,
        decreases len - k,
    {
        if s.get_char(k) == c {
            proof { lemma_first_index_of(s@, c, k as int); }
            let a = owned(s.substring_char(0, k));
            let b = owned(s.substring_char(k + 1, len));
            assert(a@ =~= s@.take(k as int));
            assert(b@ =~= s@.skip(k + 1));
            return Some((a, b));
        }
        k = k + 1;
    }
    proof { lemma_first_index_of(s@, c, k as int); }
    None
}

/// The key-value pairs that `kvs` describe as `key=value`: each entry
/// cut at its first `=`; entries without `=` are left out.
pub open spec fn otel_pairs(kvs: Seq<Seq<char>>) -> Seq<(Seq<char>, Seq<char>)>
    decreases kvs.len(),
{
    if kvs.len() == 0 {
        Seq::empty()
    } else {
        match split_once(kvs.last(), '=') {
            Some(p) => otel_pairs(kvs.drop_last()).push(p),
            None => otel_pairs(kvs.drop_last()),
        }
    }
}

/// The views of a list of strings.
pub open spec fn string_views(v: Seq<String>) -> Seq<Seq<char>> {
    v.map_values(|s: String| s@)
}

/// The views of a list of string pairs.
pub open spec fn pair_views(v: Seq<(String, String)>) -> Seq<(Seq<char>, Seq<char>)> {
    v.map_values(|p: (String, String)| (p.0@, p.1@))
}

/// Where the log records go.
pub enum LogTarget {
    /// Appended to the file `prefix` in directory `dir`.
    File { dir: String, prefix: String },
    /// Written to standard output.
    Stdout,
}

/// What the telemetry exporter is set up with.
pub struct TraceSetup {
    /// The collector to export to.
    pub endpoint: String,
    /// Resource attributes.
    pub kvs: Vec<(String, String)>,
}

/// The logging section of the configuration.
pub struct LogConf {
    pub dir: Option<String>,
    pub prefix: Option<String>,
    pub rotation: Option<String>,
    pub otel_endpoint: Option<String>,
    pub otel_kvs: Option<Vec<String>>,
}

impl LogConf {
    /// Where records go: to a file when both the directory and the file
    /// prefix are set, to standard output otherwise.
    pub fn log_target(&self) -> (res: LogTarget)
        ensures
            match res {
                LogTarget::File { dir, prefix } => self.dir matches Some(d) && self.prefix matches Some(p)
                    && dir@ == d@ && prefix@ == p@,
                LogTarget::Stdout => self.dir is None || self.prefix is None,
            },
    {
        match (&self.dir, &self.prefix) {
            (Some(d), Some(p)) => LogTarget::File { dir: d.clone(), prefix: p.clone() },
            _ => LogTarget::Stdout,
        }
    }

    /// The resource attributes for the exporter, from the `key=value`
    /// entries of the configuration.
    pub fn get_otel_kvs(&self) -> (res: Vec<(String, String)>)
        ensures
            pair_views(res@) == match &self.otel_kvs {
                Some(v) => otel_pairs(string_views(v@)),
                None => Seq::empty(),
            },
    {
        let mut kvs: Vec<(String, String)> = Vec::new();
        match &self.otel_kvs {
            None => {
                assert(pair_views(kvs@) =~= Seq::empty());
            },
            Some(entries) => {
                let mut k: usize = 0;
                while k < entries.len()
                    invariant
                        k <= entries@.len(),
                        pair_views(kvs@) == otel_pairs(string_views(entries@.take(k as int))),
                    decreases entries@.len() - k,
                {
                    let ghost prev = kvs@;
                    let ghost pre = string_views(entries@.take(k as int));
                    assert(string_views(entries@.take(k + 1)) =~= pre.push(entries@[k as int]@));
                    assert(string_views(entries@.take(k + 1)).drop_last() =~= pre);
                    match split_once_char(entries[k].as_str(), '=') {
                        Some((a, b)) => {
                            kvs.push((a, b));
                            assert(pair_views(kvs@) =~= pair_views(prev).push((a@, b@)));
                        },
                        None => {},
                    }
                    k = k + 1;
                }
                assert(entries@.take(k as int) =~= entries@);
            },
        }
        kvs
    }

    /// The exporter setup, when a collector endpoint is configured.
    pub fn set_traces(&self) -> (res: Option<TraceSetup>)
        ensures
            match res {
                Some(t) => self.otel_endpoint matches Some(e) && t.endpoint@ == e@
                    && pair_views(t.kvs@) == match &self.otel_kvs {
                        Some(v) => otel_pairs(string_views(v@)),
                        None => Seq::empty(),
                    },
                None => self.otel_endpoint is None,
            },
    {
        match &self.otel_endpoint {
            Some(endpoint) => {
                let kvs = self.get_otel_kvs();
                Some(TraceSetup { endpoint: endpoint.clone(), kvs })
            },
            None => None,
        }
    }
}

/// The logging options of the command line.
pub struct Param {
    /// Directory for storing logs.
    pub dir: Option<String>,
    /// Log file name prefix.
    pub prefix: Option<String>,
    /// Log file splitting period.
    pub rotation: Option<String>,
    /// Telemetry collector address.
    pub collector: Option<String>,
    /// Telemetry resource key values.
    pub res_kv: Vec<String>,
}

/// The TLS section of the configuration.
pub struct TlsConf {
    pub ca: Option<String>,
    pub cert: String,
    pub key: String,
    pub alpn: Option<Vec<String>>,
}

/// The bytes of each of a list of protocol names.
pub open spec fn alpn_bytes(names: Seq<String>) -> Seq<Seq<u8>> {
    names.map_values(|n: String| vstd::utf8::encode_utf8(n@))
}

impl TlsConf {
    /// The ALPN protocols to offer, as bytes, when configured.
    pub fn alpn_protocols(&self) -> (res: Option<Vec<Vec<u8>>>)
        ensures
            match res {
                Some(v) => self.alpn matches Some(a) && crate::frame::byte_views(v@) == alpn_bytes(a@),
                None => self.alpn is None,
            },
    {
        match &self.alpn {
            None => None,
            Some(names) => {
                let mut out: Vec<Vec<u8>> = Vec::new();
                let mut k: usize = 0;
                while k < names.len()
                    invariant
                        k <= names@.len(),
                        crate::frame::byte_views(out@) == alpn_bytes(names@.take(k as int)),
                    decreases names@.len() - k,
                {
                    let ghost prev = out@;
                    let b = names[k].as_str().as_bytes_vec();
                    out.push(b);
                    assert(crate::frame::byte_views(out@) =~= crate::frame::byte_views(prev).push(b@));
                    assert(alpn_bytes(names@.take(k + 1)) =~= alpn_bytes(names@.take(k as int)).push(
                        vstd::utf8::encode_utf8(names@[k as int]@),
                    ));
                    k = k + 1;
                }
                assert(names@.take(k as int) =~= names@);
                Some(out)
            },
        }
    }
}

} // verus!
