//! Slack credentials: the channel a client posts to and the API key it posts with.

use vstd::prelude::*;
use vstd::string::*;

use crate::text::debug_quote;

verus! {

/// Placeholder printed in place of a secret in debug output.
pub const REDACTED: &'static str = "<redacted>";

/// The masked form of an API key: asterisks only, one per character, for keys
/// shorter than 8 characters; otherwise the first 4 characters, an ellipsis
/// and the last 4 characters.
pub open spec fn masked_key(key: Seq<char>) -> Seq<char> {
    if key.len() < 8 {
        Seq::new(key.len(), |_i: int| '*')
    } else {
        key.take(4) + seq!['.', '.', '.'] + key.skip(key.len() - 4)
    }
}

/// The debug rendering of a channel: its identifier, quoted, and the redaction
/// placeholder, quoted, in place of the API key.
pub open spec fn channel_debug_text(channel_id: Seq<char>) -> Seq<char> {
    "SlackChannel { channel_id: "@ + crate::text::debug_quoted(channel_id) + ", api_key: "@
        + crate::text::debug_quoted(REDACTED@) + " }"@
}

/// The masked form of a key depends only on the key's length and, for keys of
/// 8 characters or more, on its first four and its last four characters.
pub proof fn lemma_mask_depends_only_on_ends(k1: Seq<char>, k2: Seq<char>)
    requires
        k1.len() == k2.len(),
        k1.len() >= 8 ==> k1.take(4) == k2.take(4) && k1.skip(k1.len() - 4) == k2.skip(
            k2.len() - 4,
        ),
    ensures
        masked_key(k1) == masked_key(k2),
{
    if k1.len() < 8 {
        assert(masked_key(k1) =~= masked_key(k2));
    }
}

/// A masked key of fewer than 8 characters is as long as the key and made of
/// asterisks only; any other masked key has 11 characters, of which only the
/// first four and the last four come from the key.
pub proof fn lemma_mask_shape(key: Seq<char>)
    ensures
        key.len() < 8 ==> masked_key(key).len() == key.len() && forall|i: int|
            0 <= i < key.len() ==> #[trigger] masked_key(key)[i] == '*',
        key.len() >= 8 ==> masked_key(key).len() == 11 && masked_key(key).subrange(4, 7)
            == seq!['.', '.', '.'] && forall|i: int|
            0 <= i < 4 ==> #[trigger] masked_key(key)[i] == key[i] && masked_key(key)[7 + i]
                == key[key.len() - 4 + i],
{
    if key.len() >= 8 {
        assert(masked_key(key).subrange(4, 7) =~= seq!['.', '.', '.']);
    }
}

/// The debug rendering of a credential does not depend on its API key: two
/// credentials for the same channel render alike, whatever their keys.
pub proof fn lemma_debug_ignores_key(a: SlackChannel, b: SlackChannel)
    requires
        a.channel_view() == b.channel_view(),
    ensures
        channel_debug_text(a.channel_view()) == channel_debug_text(b.channel_view()),
{
}

/// The debug rendering of a credential shows its own channel identifier,
/// quoted, right after the opening `SlackChannel { channel_id: `, whatever its
/// length; credentials whose identifiers quote differently render
/// differently.
pub proof fn lemma_debug_shows_channel(channel_id: Seq<char>, other: Seq<char>)
    ensures
        channel_debug_text(channel_id).subrange(
            27,
            27 + crate::text::debug_quoted(channel_id).len() as int,
        ) == crate::text::debug_quoted(channel_id),
        crate::text::debug_quoted(channel_id) != crate::text::debug_quoted(other)
            ==> channel_debug_text(channel_id) != channel_debug_text(other),
{
    reveal_strlit("SlackChannel { channel_id: ");
    let u = crate::text::debug_quoted(channel_id);
    let v = crate::text::debug_quoted(other);
    let a = channel_debug_text(channel_id);
    let b = channel_debug_text(other);
    let tail_len = ", api_key: "@.len() + crate::text::debug_quoted(REDACTED@).len() + " }"@.len();
    assert(a.len() == 27 + u.len() + tail_len);
    assert(b.len() == 27 + v.len() + tail_len);
    assert(a.subrange(27, 27 + u.len() as int) =~= u);
    if u != v && a == b {
        assert(b.subrange(27, 27 + v.len() as int) =~= v);
        assert(false);
    }
}

/// Masks an API key for logging.
///
/// Shows the first 4 and the last 4 characters with an ellipsis in between.
/// Keys shorter than 8 characters are shown as asterisks only.
pub fn mask_api_key(key: &str) -> (masked: String)
    ensures
        masked@ == masked_key(key@),
{
    proof {
        reveal_strlit("*");
        reveal_strlit("...");
        assert("*"@ =~= seq!['*']);
        assert("..."@ =~= seq!['.', '.', '.']);
    }
    let len = key.unicode_len();
    if len < 8 {
        let mut stars = String::new();
        let mut i: usize = 0;
        while i < len
            invariant
                i <= len,
                len == key@.len(),
                "*"@ == seq!['*'],
                stars@ == Seq::new(i as nat, |_j: int| '*'),
            decreases len - i,
        {
            stars.append("*");
            assert(stars@ =~= Seq::new((i + 1) as nat, |_j: int| '*'));
            i = i + 1;
        }
        stars
    } else {
        let first = key.substring_char(0, 4);
        let last = key.substring_char(len - 4, len);
        let mut masked = first.to_owned();
        masked.append("...");
        masked.append(last);
        assert(key@.take(4) =~= key@.subrange(0, 4));
        assert(key@.skip(key@.len() - 4) =~= key@.subrange(len - 4, len as int));
        assert(masked@ =~= masked_key(key@));
        masked
    }
}

/// The credential of a Slack channel: the channel identifier and the API key
/// used to post to it.
///
/// The key is held as an ordinary `String`: it is not zeroized when the
/// credential is dropped.
pub struct SlackChannel {
    channel_id: String,
    api_key: String,
}

impl SlackChannel {
    /// The channel identifier.
    pub closed spec fn channel_view(&self) -> Seq<char> {
        self.channel_id@
    }

    /// The API key.
    pub closed spec fn key_view(&self) -> Seq<char> {
        self.api_key@
    }

    /// Creates a credential for the given channel and API key.
    pub fn new(channel_id: &str, api_key: &str) -> (channel: Self)
        ensures
            channel.channel_view() == channel_id@,
            channel.key_view() == api_key@,
    {
        SlackChannel { channel_id: channel_id.to_owned(), api_key: api_key.to_owned() }
    }

    /// Returns the API key associated with this credential.
    pub fn api_key(&self) -> (key: &str)
        ensures
            key@ == self.key_view(),
    {
        self.api_key.as_str()
    }

    /// Returns a masked version of the API key for logging purposes.
    ///
    /// Shows the first 4 and the last 4 characters with an ellipsis in between.
    /// For keys shorter than 8 characters, shows asterisks only.
    pub fn api_key_masked(&self) -> (masked: String)
        ensures
            masked@ == masked_key(self.key_view()),
    {
        mask_api_key(self.api_key.as_str())
    }

    /// Returns the channel identifier.
    pub fn channel_id(&self) -> (id: String)
        ensures
            id@ == self.channel_view(),
    {
        self.channel_id.clone()
    }

    /// Returns the debug rendering of this credential, in which the API key
    /// is replaced by [`REDACTED`].
    pub fn debug_string(&self) -> (text: String)
        ensures
            text@ == channel_debug_text(self.channel_view()),
    {
        let mut text = String::from_str("SlackChannel { channel_id: ");
        let quoted_id = debug_quote(self.channel_id.as_str());
        text.append(quoted_id.as_str());
        text.append(", api_key: ");
        let quoted_key = debug_quote(REDACTED);
        text.append(quoted_key.as_str());
        text.append(" }");
        text
    }
}

impl Clone for SlackChannel {
    /// A copy of the credential, for the same channel and key.
    fn clone(&self) -> (copy: Self)
        ensures
            copy.channel_view() == self.channel_view(),
            copy.key_view() == self.key_view(),
    {
        SlackChannel { channel_id: self.channel_id.clone(), api_key: self.api_key.clone() }
    }
}

} // verus!
