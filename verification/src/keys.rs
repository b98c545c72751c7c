//! The layout of the store's keys: one prefix for each kind of record.

use vstd::prelude::*;
use crate::text::{decimal, push_decimal};

verus! {

/// The key under which the article with the canonical link `link` is stored.
pub open spec fn article_key_of(link: Seq<char>) -> Seq<char> {
    "article:"@ + link
}

/// The key under which the channel of the feed at `source` is stored.
pub open spec fn channel_key_of(source: Seq<char>) -> Seq<char> {
    "channel:"@ + source
}

/// The key under which the summary with the content hash `hash` is stored.
pub open spec fn summary_key_of(hash: u64) -> Seq<char> {
    "summary:"@ + decimal(hash as nat)
}

/// The prefix that all article keys share, for a scan of the store.
pub fn article_prefix() -> (prefix: String)
    ensures
        prefix@ == "article:"@,
{
    "article:".to_owned()
}

/// The store key of the article with the canonical link `link`.
pub fn article_key(link: &str) -> (key: String)
    ensures
        key@ == article_key_of(link@),
{
    let mut key = "article:".to_owned();
    key.append(link);
    key
}

/// The store key of the channel of the feed at `source`.
pub fn channel_key(source: &str) -> (key: String)
    ensures
        key@ == channel_key_of(source@),
{
    let mut key = "channel:".to_owned();
    key.append(source);
    key
}

/// The store key of the summary with the content hash `hash`.
pub fn summary_key(hash: u64) -> (key: String)
    ensures
        key@ == summary_key_of(hash),
{
    let mut key = "summary:".to_owned();
    push_decimal(&mut key, hash);
    key
}

/// Two links with the same article key are the same link: the store holds
/// at most one record for a canonical link.
pub proof fn lemma_article_key_injective(a: Seq<char>, b: Seq<char>)
    requires
        article_key_of(a) == article_key_of(b),
    ensures
        a == b,
{
    let p = "article:"@;
    assert((p + a).subrange(p.len() as int, (p + a).len() as int) =~= a);
    assert((p + b).subrange(p.len() as int, (p + b).len() as int) =~= b);
}

/// Two sources with the same channel key are the same source.
pub proof fn lemma_channel_key_injective(a: Seq<char>, b: Seq<char>)
    requires
        channel_key_of(a) == channel_key_of(b),
    ensures
        a == b,
{
    let p = "channel:"@;
    assert((p + a).subrange(p.len() as int, (p + a).len() as int) =~= a);
    assert((p + b).subrange(p.len() as int, (p + b).len() as int) =~= b);
}

/// The three kinds of record never share a key.
pub proof fn lemma_key_spaces_disjoint(link: Seq<char>, source: Seq<char>, hash: u64)
    ensures
        article_key_of(link) != channel_key_of(source),
        article_key_of(link) != summary_key_of(hash),
        channel_key_of(source) != summary_key_of(hash),
{
    reveal_strlit("article:");
    reveal_strlit("channel:");
    reveal_strlit("summary:");
    assert(article_key_of(link)[0] == 'a');
    assert(channel_key_of(source)[0] == 'c');
    assert(summary_key_of(hash)[0] == 's');
}

} // verus!
