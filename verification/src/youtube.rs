//! The YouTube live chat source: where it reads, and how a chat item becomes
//! an event.

use vstd::prelude::*;
use crate::event::{chat_event, is_chat_from, ChatSource, Event};
use crate::text::{all_ws, is_prefix, lemma_trim_empty_iff_all_ws, take_chars, take_chars_str, trim, trim_str};

verus! {

/// An image of a chat item, with its alternative text.
#[derive(Clone, Debug, PartialEq)]
pub struct ImageItem {
    pub alt: Option<String>,
}

/// An emoji in a chat message.
#[derive(Clone, Debug, PartialEq)]
pub struct EmojiItem {
    pub image_item: Option<ImageItem>,
    pub emoji_text: Option<String>,
}

/// One piece of a chat message.
#[derive(Clone, Debug, PartialEq)]
pub enum MessageItem {
    Text(String),
    Emoji(EmojiItem),
}

/// Who wrote a chat message.
#[derive(Clone, Debug, PartialEq)]
pub struct Author {
    pub name: Option<String>,
}

/// A chat message as YouTube delivers it: its author and its pieces.
#[derive(Clone, Debug, PartialEq)]
pub struct ChatItem {
    pub author: Author,
    pub message: Vec<MessageItem>,
}

/// The characters that `demoji::demoji` removes: those of the character
/// class of its regular expression.
pub open spec fn is_emoji(c: char) -> bool {
    let u = c as u32;
    ||| 0x1F600 <= u <= 0x1F64F
    ||| 0x1F300 <= u <= 0x1F5FF
    ||| 0x1F680 <= u <= 0x1F6FF
    ||| 0x1F1E0 <= u <= 0x1F1FF
    ||| 0x2702 <= u <= 0x27B0
    ||| 0x24C2 <= u <= 0x1F251
}

/// `s` without the characters that `demoji::demoji` removes.
pub open spec fn strip_emoji(s: Seq<char>) -> Seq<char> {
    s.filter(|c: char| !is_emoji(c))
}

/// Removes emojis from `s` (`demoji::demoji`). Its source replaces every run
/// of characters of one regular-expression class by nothing; the contract
/// states that class.
#[verifier::external_body]
fn demoji_str(s: &str) -> (r: String)
    ensures
        r@ == strip_emoji(s@),
{
    demoji::demoji(s)
}

/// The text that stands for an emoji: its own text, else the alternative
/// text of its image, else nothing.
pub open spec fn spec_emoji_text(e: EmojiItem) -> Seq<char> {
    match e.emoji_text {
        Some(t) => t@,
        None => match e.image_item {
            Some(img) => match img.alt {
                Some(a) => a@,
                None => Seq::empty(),
            },
            None => Seq::empty(),
        },
    }
}

/// The text of one piece of a message.
pub open spec fn spec_item_text(m: MessageItem) -> Seq<char> {
    match m {
        MessageItem::Text(s) => s@,
        MessageItem::Emoji(e) => spec_emoji_text(e),
    }
}

/// The pieces of a message joined in order, leaving out those that are only
/// whitespace.
pub open spec fn spec_join(items: Seq<MessageItem>) -> Seq<char>
    decreases items.len(),
{
    if items.len() == 0 {
        Seq::empty()
    } else {
        let a = spec_join(items.drop_last());
        let b = spec_item_text(items.last());
        if trim(b).len() == 0 {
            a
        } else {
            a + b
        }
    }
}

/// The author shown for a message: the name without emojis, cut to 16
/// characters, or `@` when the name is unknown.
pub open spec fn spec_author(name: Option<String>) -> Seq<char> {
    match name {
        Some(n) => take_chars(strip_emoji(n@), 16),
        None => "@"@,
    }
}

/// The author shown for a named YouTube author is cut only after the emojis
/// are gone: it is a prefix of the name without emojis, as long as that text
/// or 16 characters, whichever is less.
pub proof fn lemma_author_cut_after_demoji(n: String)
    ensures
        is_prefix(spec_author(Some(n)), strip_emoji(n@)),
        spec_author(Some(n)).len() == if strip_emoji(n@).len() < 16 {
            strip_emoji(n@).len()
        } else {
            16
        },
{
    let f = strip_emoji(n@);
    let a = spec_author(Some(n));
    if f.len() <= 16 {
        assert(a == f);
        assert(f.subrange(0, f.len() as int) == f);
    } else {
        assert(a == f.take(16));
        assert(f.subrange(0, 16) == f.take(16));
    }
}

/// Adding a text piece to a message: a text that is not only whitespace is
/// appended character for character, a whitespace-only text changes
/// nothing.
pub proof fn lemma_join_push_text(items: Seq<MessageItem>, s: String)
    ensures
        !all_ws(s@) ==> spec_join(items.push(MessageItem::Text(s))) == spec_join(items) + s@,
        all_ws(s@) ==> spec_join(items.push(MessageItem::Text(s))) == spec_join(items),
{
    lemma_trim_empty_iff_all_ws(s@);
    assert(items.push(MessageItem::Text(s)).drop_last() == items);
}

/// Adding an emoji that has its own text: that text is appended character
/// for character, unless it is only whitespace.
pub proof fn lemma_join_push_emoji(items: Seq<MessageItem>, e: EmojiItem)
    requires
        e.emoji_text is Some,
    ensures
        !all_ws(e.emoji_text->0@) ==> spec_join(items.push(MessageItem::Emoji(e))) == spec_join(
            items,
        ) + e.emoji_text->0@,
        all_ws(e.emoji_text->0@) ==> spec_join(items.push(MessageItem::Emoji(e))) == spec_join(
            items,
        ),
{
    lemma_trim_empty_iff_all_ws(e.emoji_text->0@);
    assert(items.push(MessageItem::Emoji(e)).drop_last() == items);
}

/// A message made of text pieces none of which is only whitespace reads as
/// the plain concatenation of those texts, in order.
pub proof fn lemma_join_plain_texts(texts: Seq<String>)
    requires
        forall|i: int| 0 <= i < texts.len() ==> !all_ws(#[trigger] texts[i]@),
    ensures
        spec_join(texts.map_values(|s: String| MessageItem::Text(s))) == texts.map_values(
            |s: String| s@,
        ).flatten(),
    decreases texts.len(),
{
    let items = texts.map_values(|s: String| MessageItem::Text(s));
    let strs = texts.map_values(|s: String| s@);
    if texts.len() == 0 {
        assert(items.len() == 0);
        assert(strs.len() == 0);
    } else {
        let init = texts.drop_last();
        let last = texts.last();
        assert forall|i: int| 0 <= i < init.len() implies !all_ws(#[trigger] init[i]@) by {
            assert(init[i] == texts[i]);
        }
        lemma_join_plain_texts(init);
        assert(items == init.map_values(|s: String| MessageItem::Text(s)).push(MessageItem::Text(last)));
        assert(strs == init.map_values(|s: String| s@).push(last@));
        lemma_join_push_text(init.map_values(|s: String| MessageItem::Text(s)), last);
        init.map_values(|s: String| s@).lemma_flatten_push(last@);
    }
}

/// The author shown for a YouTube message is at most 16 characters long and
/// holds no character that `demoji` removes.
pub proof fn lemma_author_short_and_plain(name: Option<String>)
    ensures
        spec_author(name).len() <= 16,
        forall|i: int| 0 <= i < spec_author(name).len() ==> !is_emoji(#[trigger] spec_author(name)[i]),
{
    match name {
        Some(n) => {
            let pred = |c: char| !is_emoji(c);
            let f = n@.filter(pred);
            assert(f == strip_emoji(n@));
            assert forall|i: int| 0 <= i < spec_author(name).len() implies !is_emoji(
                #[trigger] spec_author(name)[i],
            ) by {
                assert(spec_author(name)[i] == f[i]);
                n@.lemma_filter_pred(pred, i);
            }
        },
        None => {
            reveal_strlit("@");
        },
    }
}

/// The text that stands for an emoji.
pub fn emoji_to_text(emoji: &EmojiItem) -> (r: String)
    ensures
        r@ == spec_emoji_text(*emoji),
{
    let mut text = String::new();
    if let Some(emj_text) = &emoji.emoji_text {
        text.append(emj_text.as_str());
    } else if let Some(img) = &emoji.image_item {
        if let Some(alt) = &img.alt {
            text.append(alt.as_str());
        }
    }
    text
}

fn item_text(m: &MessageItem) -> (r: String)
    ensures
        r@ == spec_item_text(*m),
{
    match m {
        MessageItem::Text(s) => s.clone(),
        MessageItem::Emoji(e) => emoji_to_text(e),
    }
}

/// The event for a YouTube chat item: a chat message from YouTube whose
/// author is the name without emojis cut to 16 characters (`@` without a
/// name), and whose text joins the pieces that are not only whitespace.
pub fn format_message(msg: ChatItem) -> (e: Event)
    ensures
        is_chat_from(e@, ChatSource::YoutubeLive, spec_author(msg.author.name), spec_join(msg.message@)),
        e@->chat.ts.secs >= 0,
        e@->chat.ts.nanos < 1_000_000_000,
{
    let author = match &msg.author.name {
        Some(author_name) => {
            let d = demoji_str(author_name.as_str());
            String::from_str(take_chars_str(d.as_str(), 16))
        },
        None => String::from_str("@"),
    };
    let mut full_text = String::new();
    let mut i: usize = 0;
    while i < msg.message.len()
        invariant
            i <= msg.message@.len(),
            full_text@ == spec_join(msg.message@.take(i as int)),
        decreases msg.message@.len() - i,
    {
        let b = item_text(&msg.message[i]);
        assert(msg.message@.take(i + 1).drop_last() == msg.message@.take(i as int));
        if !trim_str(b.as_str()).is_empty() {
            full_text.append(b.as_str());
        }
        i = i + 1;
    }
    assert(msg.message@.take(msg.message@.len() as int) == msg.message@);
    chat_event(ChatSource::YoutubeLive, author, full_text)
}

/// The YouTube live chat source of one channel.
pub struct YoutubeSource {
    pub stream_url: String,
}

impl YoutubeSource {
    /// The source for the channel `channel_username` (such as `@name`),
    /// whose live chat stands at `https://www.youtube.com/<channel>/live`.
    pub fn new(channel_username: String) -> (r: Self)
        ensures
            r.stream_url@ == "https://www.youtube.com/"@ + channel_username@ + "/live"@,
    {
        let mut stream_url = String::from_str("https://www.youtube.com/");
        stream_url.append(channel_username.as_str());
        stream_url.append("/live");
        YoutubeSource { stream_url }
    }
}

} // verus!
