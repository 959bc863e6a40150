//! The default feature name that a crate configures under
//! `[package.metadata.might_be_async]` in its `Cargo.toml`.

use vstd::prelude::*;
use vstd::string::*;

verus! {

/// The part of a `Cargo.toml` that the default feature name is read from.
#[derive(Debug)]
pub struct Manifest {
    pub package: Option<Package>,
}

/// `[package]`
#[derive(Debug)]
pub struct Package {
    pub metadata: Option<Metadata>,
}

/// `[package.metadata]`
#[derive(Debug)]
pub struct Metadata {
    pub might_be_async: Option<MightBeAsync>,
}

/// `[package.metadata.might_be_async]`
#[derive(Debug)]
pub struct MightBeAsync {
    pub default_feature_name: Option<String>,
}

/// The name that the manifest sets under
/// `package.metadata.might_be_async.default_feature_name`, if it sets one.
pub open spec fn configured_name(manifest: Option<Manifest>) -> Option<Seq<char>> {
    match manifest {
        Some(m) => match m.package {
            Some(p) => match p.metadata {
                Some(md) => match md.might_be_async {
                    Some(c) => match c.default_feature_name {
                        Some(n) => Some(n@),
                        None => None,
                    },
                    None => None,
                },
                None => None,
            },
            None => None,
        },
        None => None,
    }
}

/// The default feature name: the one that the manifest configures, or
/// `"async"` when there is no manifest or it configures none.
pub fn default_feature_name_of(manifest: &Option<Manifest>) -> (r: String)
    ensures
        r@ == match configured_name(*manifest) {
            Some(n) => n,
            None => "async"@,
        },
{
    if let Some(m) = manifest {
        if let Some(p) = &m.package {
            if let Some(md) = &p.metadata {
                if let Some(c) = &md.might_be_async {
                    if let Some(n) = &c.default_feature_name {
                        return n.clone();
                    }
                }
            }
        }
    }
    String::from_str("async")
}

/// The string that the TOML document `text` holds at
/// `package.metadata.might_be_async.default_feature_name`, as `toml`
/// parses it; `None` when `text` is not TOML, or the key is missing, or its
/// value is not a string.
pub uninterp spec fn toml_default_feature_name(text: Seq<char>) -> Option<Seq<char>>;

/// Parses `text` as a `toml::Value` (`toml::Value::from_str`) and moves the
/// tables on the path to the default feature name, field by field, into a
/// [`Manifest`]; a key that is absent or whose value has another type
/// becomes `None`. The contract claims that the name found is
/// `toml_default_feature_name(text)`.
#[verifier::external_body]
fn manifest_of_toml(text: &str) -> (r: Option<Manifest>)
    ensures
        configured_name(r) == toml_default_feature_name(text@),
{
    let v = text.parse::<toml::Value>().ok()?;
    Some(Manifest {
        package: v.get("package").map(|p| Package {
            metadata: p.get("metadata").map(|m| Metadata {
                might_be_async: m.get("might_be_async").map(|a| MightBeAsync {
                    default_feature_name: a.get("default_feature_name").and_then(|n| n.as_str()).map(
                        String::from,
                    ),
                }),
            }),
        }),
    })
}

/// The default feature name that the manifest text `text` configures, or
/// `"async"` when there is no text or it configures none.
pub fn default_feature_name_from_text(text: Option<&str>) -> (r: String)
    ensures
        r@ == match text {
            Some(t) => match toml_default_feature_name(t@) {
                Some(n) => n,
                None => "async"@,
            },
            None => "async"@,
        },
{
    let manifest = match text {
        Some(t) => manifest_of_toml(t),
        None => None,
    };
    default_feature_name_of(&manifest)
}

} // verus!
