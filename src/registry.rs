//! The compiled-in table of container images that may ever be built or
//! pulled. Nothing at run time adds to it.
use vstd::prelude::*;
use crate::text::{chars_of, fold, same, fold_chars};

verus! {

/// Where a registered image comes from.
#[derive(Debug, Clone, Copy)]
pub enum ImageSource {
    /// A fully qualified image reference, pulled as it is.
    Remote(&'static str),
    /// A Dockerfile under the trusted repository's `docker/` directory.
    Local(&'static str),
}

impl ImageSource {
    pub open spec fn spec_path(&self) -> Seq<char> {
        match self {
            ImageSource::Remote(u) => u@,
            ImageSource::Local(p) => p@,
        }
    }

    pub fn path(&self) -> (r: &'static str)
        ensures
            r@ == self.spec_path(),
    {
        match self {
            ImageSource::Remote(u) => u,
            ImageSource::Local(p) => p,
        }
    }

    pub fn is_remote(&self) -> (r: bool)
        ensures
            r == self is Remote,
    {
        match self {
            ImageSource::Remote(_) => true,
            ImageSource::Local(_) => false,
        }
    }
}

/// A registered image: its key, what it is for, and its source.
#[derive(Debug, Clone, Copy)]
pub struct RegisteredImage {
    pub key: &'static str,
    pub description: &'static str,
    pub source: ImageSource,
}

/// The registry's keys, in table order.
pub open spec fn registry_keys() -> Seq<Seq<char>> {
    seq!["go1.22"@, "go1.22-race"@, "api-client-test"@]
}

/// Each registered image as (key, source is remote, source path).
pub open spec fn registry_entries() -> Seq<(Seq<char>, bool, Seq<char>)> {
    seq![
        ("go1.22"@, false, "docker/Go1.22"@),
        ("go1.22-race"@, false, "docker/Go1.22-race"@),
        ("api-client-test"@, true, "ghcr.io/projectlighthouse/api-client-test:latest"@),
    ]
}

pub open spec fn entry_of(img: RegisteredImage) -> (Seq<char>, bool, Seq<char>) {
    (img.key@, img.source is Remote, img.source.spec_path())
}

/// The index of the first entry whose key is `key`.
pub open spec fn index_of_key(key: Seq<char>) -> Option<int> {
    if key == registry_keys()[0] {
        Some(0)
    } else if key == registry_keys()[1] {
        Some(1)
    } else if key == registry_keys()[2] {
        Some(2)
    } else {
        None
    }
}

/// The registered images, in table order.
pub fn registered_images() -> (r: Vec<RegisteredImage>)
    ensures
        r@.len() == 3,
        forall|i: int| 0 <= i < 3 ==> entry_of(#[trigger] r@[i]) == registry_entries()[i],
        forall|i: int| 0 <= i < 3 ==> r@[i].key@ == registry_keys()[i],
{
    let mut v: Vec<RegisteredImage> = Vec::new();
    v.push(
        RegisteredImage {
            key: "go1.22",
            description: "Go 1.22 build and test environment",
            source: ImageSource::Local("docker/Go1.22"),
        },
    );
    v.push(
        RegisteredImage {
            key: "go1.22-race",
            description: "Go 1.22 with race detector enabled",
            source: ImageSource::Local("docker/Go1.22-race"),
        },
    );
    v.push(
        RegisteredImage {
            key: "api-client-test",
            description: "Salvo.rs test server for API client validation",
            source: ImageSource::Remote("ghcr.io/projectlighthouse/api-client-test:latest"),
        },
    );
    v
}

/// The registered image whose key equals `key` with ASCII letters folded to
/// lower case; `None` for any other key.
pub fn lookup(key: &str) -> (r: Option<RegisteredImage>)
    ensures
        match index_of_key(fold(key@)) {
            Some(i) => r is Some && entry_of(r->0) == registry_entries()[i],
            None => r is None,
        },
{
    let wanted = fold_chars(&chars_of(key));
    let images = registered_images();
    let mut k: usize = 0;
    while k < images.len()
        invariant
            k <= 3,
            images@.len() == 3,
            wanted@ == fold(key@),
            forall|i: int| 0 <= i < 3 ==> entry_of(#[trigger] images@[i]) == registry_entries()[i],
            forall|i: int| 0 <= i < 3 ==> images@[i].key@ == registry_keys()[i],
            forall|j: int| 0 <= j < k ==> registry_keys()[j] != wanted@,
        decreases 3 - k,
    {
        if same(&chars_of(images[k].key), &wanted) {
            return Some(images[k]);
        }
        k = k + 1;
    }
    None
}

pub fn is_registered(key: &str) -> (r: bool)
    ensures
        r == index_of_key(fold(key@)) is Some,
{
    lookup(key).is_some()
}

/// The registered keys, in table order.
pub fn list_keys() -> (r: Vec<&'static str>)
    ensures
        r@.map_values(|s: &'static str| s@) == registry_keys(),
{
    let images = registered_images();
    let mut keys: Vec<&'static str> = Vec::new();
    let mut k: usize = 0;
    while k < images.len()
        invariant
            k <= 3,
            images@.len() == 3,
            forall|i: int| 0 <= i < 3 ==> images@[i].key@ == registry_keys()[i],
            keys@.map_values(|s: &'static str| s@) == registry_keys().subrange(0, k as int),
        decreases 3 - k,
    {
        let ghost before = keys@.map_values(|s: &'static str| s@);
        keys.push(images[k].key);
        assert(keys@.map_values(|s: &'static str| s@) =~= before.push(images@[k as int].key@));
        assert(registry_keys().subrange(0, k + 1) =~= registry_keys().subrange(0, k as int).push(
            registry_keys()[k as int],
        ));
        k = k + 1;
    }
    assert(registry_keys().subrange(0, 3) =~= registry_keys());
    keys
}

} // verus!
