//! A read-only view of the metadata attached to a built image: its label
//! map and digest, with extraction of the semantic major version from
//! the well-known version label.

use vstd::prelude::*;

verus! {

/// The value attached to a label: the version logic reads only whether
/// it is a string, so every non-string shape is a single variant.
#[derive(Debug, Clone)]
pub enum LabelValue {
    Text(String),
    Other,
}

/// The well-known label under which an image records its version.
pub open spec fn version_label_key() -> Seq<char> {
    "io.blue-build.version"@
}

/// The major component of a lenient semantic-version parse of `s`, or
/// nothing when the parse fails.
pub uninterp spec fn lenient_major_of(s: Seq<char>) -> Option<u64>;

/// Relies on lenient_semver::parse: a lenient parse of a version string,
/// tolerant of prefixes and missing components, whose outcome is a
/// function of the string alone; the major component of the parsed
/// version is returned.
#[verifier::external_body]
fn parse_major(s: &str) -> (r: Option<u64>)
    ensures
        r == lenient_major_of(s@),
{
    lenient_semver::parse(s).ok().map(|v| v.major)
}

/// The first value bound to `key` in a label list, or nothing when no
/// label carries that name.
pub open spec fn spec_label_lookup(
    labels: Seq<(String, LabelValue)>,
    key: Seq<char>,
) -> Option<LabelValue>
    decreases labels.len(),
{
    if labels.len() == 0 {
        None
    } else if labels[0].0@ == key {
        Some(labels[0].1)
    } else {
        spec_label_lookup(labels.drop_first(), key)
    }
}

/// Metadata reported for a built image: its labels and its digest.
#[derive(Debug, Clone)]
pub struct ImageMetadata {
    pub labels: Vec<(String, LabelValue)>,
    pub digest: String,
}

impl ImageMetadata {
    /// The major version the metadata declares: the major component of
    /// the version label's value, when that label is present, is a
    /// string, and parses; nothing otherwise.
    pub open spec fn spec_get_version(self) -> Option<u64> {
        match spec_label_lookup(self.labels@, version_label_key()) {
            Some(LabelValue::Text(s)) => lenient_major_of(s@),
            Some(LabelValue::Other) => None,
            None => None,
        }
    }

    /// Extracts the declared major version from the version label.
    /// Absence and malformation are an empty result, never an error.
    pub fn get_version(&self) -> (r: Option<u64>)
        ensures
            r == self.spec_get_version(),
    {
        let key: String = "io.blue-build.version".to_owned();
        let n = self.labels.len();
        let mut i: usize = 0;
        proof {
            assert(self.labels@.skip(0) =~= self.labels@);
        }
        while i < n
            invariant
                n == self.labels.len(),
                i <= n,
                key@ == version_label_key(),
                spec_label_lookup(self.labels@, version_label_key()) == spec_label_lookup(
                    self.labels@.skip(i as int),
                    version_label_key(),
                ),
            decreases n - i,
        {
            let entry = &self.labels[i];
            proof {
                assert(self.labels@.skip(i as int)[0] == self.labels@[i as int]);
                assert(self.labels@.skip(i as int).drop_first() =~= self.labels@.skip(
                    i as int + 1,
                ));
            }
            if entry.0.eq(&key) {
                return match &entry.1 {
                    LabelValue::Text(s) => parse_major(s.as_str()),
                    LabelValue::Other => None,
                };
            }
            i = i + 1;
        }
        None
    }
}

} // verus!
