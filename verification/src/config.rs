//! The settings of the dispatcher.

use crate::dictionary::{pairs_map, Dictionary, StringMap};
use vstd::prelude::*;
use vstd::string::StringExecFns;

verus! {

/// Where the value of a derived CGI variable is looked up.
#[derive(Debug, Clone, Copy, PartialEq, Eq, Structural)]
pub enum FieldSource {
    /// A string member of the JSON object in the item's payload.
    BodyJson,
    /// An entry of the item's metadata.
    Metadata,
}

/// How one CGI variable is derived from a queue item.
#[derive(Debug)]
pub struct FieldMapping {
    pub source: FieldSource,
    /// The name under which the value is looked up in the source.
    pub field: String,
}

impl View for FieldMapping {
    type V = (FieldSource, Seq<char>);

    open spec fn view(&self) -> (FieldSource, Seq<char>) {
        (self.source, self.field@)
    }
}

impl Clone for FieldMapping {
    fn clone(&self) -> (copy: Self)
        ensures
            copy@ == self@,
    {
        FieldMapping { source: self.source, field: self.field.clone() }
    }
}

/// The derived CGI variables, each name with the mapping that yields its
/// value.
pub type FieldMappings = Dictionary<FieldMapping>;

impl Clone for Dictionary<FieldMapping> {
    fn clone(&self) -> (copy: Self)
        ensures
            copy@ == self@,
    {
        let mut copy: FieldMappings = Dictionary::new();
        let n = self.len();
        let mut i: usize = 0;
        assert(self.pairs().take(0) =~= Seq::empty());
        while i < n
            invariant
                i <= n,
                n == self.pairs().len(),
                copy@ == pairs_map(self.pairs().take(i as int)),
            decreases n - i,
        {
            if let Some((target, mapping)) = self.entry(i) {
                proof {
                    assert(self.pairs().take(i + 1).drop_last() =~= self.pairs().take(i as int));
                }
                copy.insert(target.clone(), mapping.clone());
            }
            i += 1;
        }
        assert(self.pairs().take(n as int) =~= self.pairs());
        copy
    }
}

/// The FastCGI responder and how to address it.
#[derive(Debug, Clone)]
pub struct Fastcgi {
    pub address: String,
    pub port: u16,
    pub script_path: String,
    pub max_parallel_requests: u32,
    /// CGI variables that every request carries.
    pub cgi_environment: StringMap,
}

/// The queue service.
#[derive(Debug, Clone)]
pub struct Queue {
    pub sqs: Sqs,
}

/// An SQS queue.
#[derive(Debug, Clone)]
pub struct Sqs {
    /// An endpoint that replaces the service's own; empty for none.
    pub api_endpoint_url: String,
    pub queue_url: String,
    /// Seconds for which a received message stays hidden from other consumers.
    pub visibility_timeout: i32,
}

/// All settings.
#[derive(Debug, Clone)]
pub struct Config {
    pub fastcgi: Fastcgi,
    pub queue: Queue,
    pub field_mappings: FieldMappings,
    pub log_level: String,
}

impl Config {
    /// The log level of a configuration that names none.
    pub fn default_log_level() -> (level: String)
        ensures
            level@ == "INFO"@,
    {
        String::from_str("INFO")
    }
}

} // verus!
