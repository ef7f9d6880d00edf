//! Thumbnails that the GUI shows: the name of the file a fetched image is
//! kept under and the data URI that stands for it.

use vstd::prelude::*;
use vstd::string::*;
use crate::text::{decimal, decimal_string};

verus! {

/// The text that the `base64` crate writes for `bytes` with its standard
/// alphabet and padding.
pub uninterp spec fn base64_standard(bytes: Seq<u8>) -> Seq<char>;

/// `Engine::encode` of the `base64` crate on its `STANDARD` engine. The
/// call panics where the length of the text cannot be held, so such inputs
/// are left out; the contract only gives the text its name.
#[verifier::external_body]
fn base64_text(bytes: &[u8]) -> (text: String)
    requires
        (bytes.len() / 3) * 4 + 4 <= usize::MAX,
    ensures
        text@ == base64_standard(bytes@),
{
    base64::Engine::encode(&base64::engine::general_purpose::STANDARD, bytes)
}

/// The data URI of a JPEG image whose Base64 text is `encoded`.
pub open spec fn data_uri(encoded: Seq<char>) -> Seq<char> {
    "data:image/jpeg;base64,"@ + encoded
}

/// The data URI of a JPEG image whose Base64 text is `encoded`.
pub fn data_uri_of(encoded: &str) -> (uri: String)
    ensures
        uri@ == data_uri(encoded@),
{
    let mut uri = String::from_str("data:image/jpeg;base64,");
    uri.append(encoded);
    uri
}

/// Whether the Base64 text of `length` bytes has a length that the machine
/// can hold.
pub open spec fn encodable(length: nat) -> bool {
    (length / 3) * 4 + 4 <= usize::MAX
}

/// The data URI of the image `bytes`, or `None` where the image is too long
/// for its Base64 text to be held.
pub fn image_data_uri(bytes: &[u8]) -> (uri: Option<String>)
    ensures
        uri.is_some() == encodable(bytes@.len()),
        uri matches Some(text) ==> text@ == data_uri(base64_standard(bytes@)),
{
    if bytes.len() / 3 <= (usize::MAX - 4) / 4 {
        let encoded = base64_text(bytes);
        Some(data_uri_of(encoded.as_str()))
    } else {
        None
    }
}

/// The name of the file that keeps the thumbnail whose address hashes to
/// `hash`.
pub open spec fn thumbnail_name(hash: u64) -> Seq<char> {
    "thumb_"@ + decimal(hash as nat) + ".jpg"@
}

/// The name of the file that keeps the thumbnail whose address hashes to
/// `hash`.
pub fn thumbnail_file_name(hash: u64) -> (name: String)
    ensures
        name@ == thumbnail_name(hash),
{
    let number = decimal_string(hash);
    let mut name = String::from_str("thumb_");
    name.append(number.as_str());
    name.append(".jpg");
    name
}

/// The data URIs of the images that were fetched, by the address they were
/// fetched from. No address is kept twice.
pub struct ImageCache {
    entries: Vec<(String, String)>,
}

/// The place of `url` among `entries`.
pub open spec fn holds_at(entries: Seq<(String, String)>, i: int, url: Seq<char>) -> bool {
    0 <= i < entries.len() && entries[i].0@ == url
}

/// No address stands twice among `entries`.
pub open spec fn distinct_keys(entries: Seq<(String, String)>) -> bool {
    forall|i: int, j: int|
        0 <= i < entries.len() && 0 <= j < entries.len() && i != j ==> (
        #[trigger] entries[i]).0@ != (#[trigger] entries[j]).0@
}

impl ImageCache {
    #[verifier::type_invariant]
    spec fn distinct(&self) -> bool {
        distinct_keys(self.entries@)
    }

    /// The data URI kept for each address.
    pub closed spec fn view(&self) -> Map<Seq<char>, Seq<char>> {
        entries_map(self.entries@)
    }

    /// A cache that holds nothing.
    pub fn new() -> (cache: ImageCache)
        ensures
            cache.view() == Map::<Seq<char>, Seq<char>>::empty(),
    {
        let cache = ImageCache { entries: Vec::new() };
        assert(cache.view() =~= Map::<Seq<char>, Seq<char>>::empty());
        cache
    }

    /// The data URI kept for `url`, if there is one.
    pub fn get(&self, url: &str) -> (uri: Option<String>)
        ensures
            match uri {
                Some(found) => self.view().contains_key(url@) && found@ == self.view()[url@],
                None => !self.view().contains_key(url@),
            },
    {
        proof {
            use_type_invariant(self);
        }
        let mut i: usize = 0;
        while i < self.entries.len()
            invariant
                i <= self.entries.len(),
                distinct_keys(self.entries@),
                forall|k: int| 0 <= k < i ==> !holds_at(self.entries@, k, url@),
            decreases self.entries.len() - i,
        {
            if same_key(&self.entries[i].0, url) {
                assert(holds_at(self.entries@, i as int, url@));
                let ghost chosen = choose|k: int| holds_at(self.entries@, k, url@);
                assert(chosen == i);
                return Some(self.entries[i].1.clone());
            }
            i += 1;
        }
        None
    }

    /// Keeps `uri` for `url`, in place of what was kept for it before.
    pub fn insert(&mut self, url: String, uri: String)
        ensures
            final(self).view() == old(self).view().insert(url@, uri@),
    {
        let ghost start = self.view();
        let mut taken = ImageCache { entries: Vec::new() };
        core::mem::swap(self, &mut taken);
        proof {
            use_type_invariant(&taken);
        }
        let mut entries = taken.entries;
        let ghost before = entries@;
        let ghost key = url@;
        let ghost value = uri@;
        let mut i: usize = 0;
        while i < entries.len()
            invariant
                i <= entries.len(),
                entries@ == before,
                distinct_keys(before),
                entries_map(before) == start,
                start == old(self).view(),
                key == url@,
                value == uri@,
                forall|k: int| 0 <= k < i ==> !holds_at(before, k, key),
            decreases entries.len() - i,
        {
            if same_key(&entries[i].0, url.as_str()) {
                entries.set(i, (url, uri));
                proof {
                    let after = entries@;
                    assert(distinct_keys(after)) by {
                        assert forall|a: int, b: int|
                            0 <= a < after.len() && 0 <= b < after.len() && a != b implies (
                        #[trigger] after[a]).0@ != (#[trigger] after[b]).0@ by {
                            assert(after[a].0@ == before[a].0@);
                            assert(after[b].0@ == before[b].0@);
                        }
                    }
                    lemma_replaced(before, after, i as int, key, value);
                }
                *self = ImageCache { entries };
                return ;
            }
            i += 1;
        }
        entries.push((url, uri));
        proof {
            let after = entries@;
            assert(distinct_keys(after)) by {
                assert forall|a: int, b: int|
                    0 <= a < after.len() && 0 <= b < after.len() && a != b implies (
                #[trigger] after[a]).0@ != (#[trigger] after[b]).0@ by {
                    if a < before.len() {
                        assert(after[a] == before[a]);
                        assert(!holds_at(before, a, key));
                    }
                    if b < before.len() {
                        assert(after[b] == before[b]);
                        assert(!holds_at(before, b, key));
                    }
                }
            }
            lemma_appended(before, after, key, value);
        }
        *self = ImageCache { entries };
    }
}

/// Keeps the image `bytes` that was fetched from `url`: its data URI is
/// stored for `url` and returned. An image too long to be encoded is not
/// kept.
pub fn remember_image(cache: &mut ImageCache, url: String, bytes: &[u8]) -> (uri: Option<String>)
    ensures
        match uri {
            Some(text) => encodable(bytes@.len()) && text@ == data_uri(base64_standard(bytes@))
                && final(cache).view() == old(cache).view().insert(url@, text@),
            None => !encodable(bytes@.len()) && final(cache).view() == old(cache).view(),
        },
{
    match image_data_uri(bytes) {
        Some(text) => {
            cache.insert(url, text.clone());
            Some(text)
        },
        None => None,
    }
}

/// The map that a list of entries stands for.
pub open spec fn entries_map(entries: Seq<(String, String)>) -> Map<Seq<char>, Seq<char>> {
    Map::new(
        |url: Seq<char>| exists|i: int| holds_at(entries, i, url),
        |url: Seq<char>| entries[choose|i: int| holds_at(entries, i, url)].1@,
    )
}

proof fn lemma_entry_value(entries: Seq<(String, String)>, i: int)
    requires
        0 <= i < entries.len(),
        distinct_keys(entries),
    ensures
        entries_map(entries).contains_key(entries[i].0@),
        entries_map(entries)[entries[i].0@] == entries[i].1@,
{
    let url = entries[i].0@;
    assert(holds_at(entries, i, url));
    let chosen = choose|k: int| holds_at(entries, k, url);
    assert(chosen == i);
}

proof fn lemma_replaced(
    before: Seq<(String, String)>,
    after: Seq<(String, String)>,
    at: int,
    key: Seq<char>,
    value: Seq<char>,
)
    requires
        0 <= at < before.len(),
        after.len() == before.len(),
        before[at].0@ == key,
        after[at].0@ == key,
        after[at].1@ == value,
        forall|k: int| 0 <= k < before.len() && k != at ==> after[k] == before[k],
        distinct_keys(before),
        distinct_keys(after),
    ensures
        entries_map(after) == entries_map(before).insert(key, value),
{
    let left = entries_map(after);
    let right = entries_map(before).insert(key, value);
    assert forall|url: Seq<char>| left.contains_key(url) == right.contains_key(url) by {
        if left.contains_key(url) {
            let k = choose|k: int| holds_at(after, k, url);
            if k != at {
                assert(holds_at(before, k, url));
            }
        }
        if right.contains_key(url) && url != key {
            let k = choose|k: int| holds_at(before, k, url);
            assert(k != at);
            assert(holds_at(after, k, url));
        }
        if url == key {
            assert(holds_at(after, at, url));
        }
    }
    assert forall|url: Seq<char>| left.contains_key(url) implies left[url] == right[url] by {
        let k = choose|k: int| holds_at(after, k, url);
        lemma_entry_value(after, k);
        if k != at {
            assert(before[k] == after[k]);
            lemma_entry_value(before, k);
        }
    }
    assert(left =~= right);
}

proof fn lemma_appended(
    before: Seq<(String, String)>,
    after: Seq<(String, String)>,
    key: Seq<char>,
    value: Seq<char>,
)
    requires
        after.len() == before.len() + 1,
        after[before.len() as int].0@ == key,
        after[before.len() as int].1@ == value,
        forall|k: int| 0 <= k < before.len() ==> after[k] == before[k],
        forall|k: int| 0 <= k < before.len() ==> !holds_at(before, k, key),
        distinct_keys(before),
        distinct_keys(after),
    ensures
        entries_map(after) == entries_map(before).insert(key, value),
{
    let left = entries_map(after);
    let right = entries_map(before).insert(key, value);
    let last = before.len() as int;
    assert forall|url: Seq<char>| left.contains_key(url) == right.contains_key(url) by {
        if left.contains_key(url) {
            let k = choose|k: int| holds_at(after, k, url);
            if k != last {
                assert(holds_at(before, k, url));
            }
        }
        if right.contains_key(url) && url != key {
            let k = choose|k: int| holds_at(before, k, url);
            assert(holds_at(after, k, url));
        }
        if url == key {
            assert(holds_at(after, last, url));
        }
    }
    assert forall|url: Seq<char>| left.contains_key(url) implies left[url] == right[url] by {
        let k = choose|k: int| holds_at(after, k, url);
        lemma_entry_value(after, k);
        if k != last {
            assert(before[k] == after[k]);
            lemma_entry_value(before, k);
        }
    }
    assert(left =~= right);
}

fn same_key(stored: &String, url: &str) -> (same: bool)
    ensures
        same == (stored@ == url@),
{
    crate::text::same_text(stored.as_str(), url)
}

} // verus!
