//! Message Composer: turns resolved link metadata into an ordered,
//! platform-agnostic structured reply.
//!
//! Section order matches the order the URLs appeared in the source text.
//! Each link contributes a primary line combining its canonical page URL,
//! title and artists, a thumbnail when one is present, and — for song.link
//! responses — a list of per-platform deep links in a fixed canonical order
//! of platform keys, with platforms lacking an approved display label
//! omitted entirely. An empty record list composes to nothing to send.

use vstd::prelude::*;

use crate::songlink::{platform_label, SonglinkResponseBody};
use crate::songwhip::{SongwhipArtist, SongwhipResponseBody};
use crate::text::str_eq;

verus! {

/// One display section of a reply: a markdown text line, an optional
/// thumbnail image, and a list of markdown fields.
#[derive(Debug, Clone, PartialEq, Eq)]
pub struct SectionBlock {
    pub text: Option<String>,
    pub image_url: Option<String>,
    pub fields: Vec<String>,
}

/// The structured reply content, independent of any rendering format.
#[derive(Debug, Clone, PartialEq, Eq)]
pub struct ComposedMessage {
    pub blocks: Vec<SectionBlock>,
}

/// The primary line of a section: clickable page URL wrapping the title,
/// then the artists.
pub open spec fn main_line_of(page: Seq<char>, title: Seq<char>, artists: Seq<char>) -> Seq<char> {
    "<"@ + page + "|_*"@ + title + "*_> \n by "@ + artists
}

/// One per-platform field: the deep link wrapping the approved label.
pub open spec fn link_field_of(url: Seq<char>, label: Seq<char>) -> Seq<char> {
    "<"@ + url + "|"@ + label + ">"@
}

/// The fields contributed by one platform key: a field for each link pair
/// carrying that key, in delivery order, labeled with `label`.
pub open spec fn fields_for_key(
    links: Seq<(Seq<char>, Seq<char>)>,
    key: Seq<char>,
    label: Seq<char>,
) -> Seq<Seq<char>>
    decreases links.len(),
{
    if links.len() == 0 {
        Seq::empty()
    } else {
        fields_for_key(links.drop_last(), key, label) + (if links.last().0 == key {
            seq![link_field_of(links.last().1, label)]
        } else {
            Seq::empty()
        })
    }
}

/// The fields contributed by one labeled platform key.
pub open spec fn labeled_fields(links: Seq<(Seq<char>, Seq<char>)>, key: Seq<char>) -> Seq<
    Seq<char>,
> {
    fields_for_key(links, key, platform_label(key)->0)
}

/// The full field list of a links section: the labeled platforms in the
/// canonical order of their keys, unlabeled platforms omitted entirely.
pub open spec fn direct_link_fields(links: Seq<(Seq<char>, Seq<char>)>) -> Seq<Seq<char>> {
    labeled_fields(links, "appleMusic"@) + labeled_fields(links, "deezer"@) + labeled_fields(
        links,
        "spotify"@,
    ) + labeled_fields(links, "youtube"@) + labeled_fields(links, "youtubeMusic"@)
}

/// Appends to `out` the fields of one platform key.
#[verifier::loop_isolation(false)]
fn push_fields_for_key(
    out: &mut Vec<String>,
    sl: &SonglinkResponseBody,
    key: &str,
    label: &str,
)
    ensures
        final(out).deep_view() == old(out).deep_view() + fields_for_key(
            sl.platform_pairs(),
            key@,
            label@,
        ),
{
    let ghost pairs = sl.platform_pairs();
    let n = sl.links_by_platform.len();
    let mut i: usize = 0;
    while i < n
        invariant
            i <= n,
            n == sl.links_by_platform@.len(),
            out.deep_view() =~~= old(out).deep_view() + fields_for_key(
                pairs.take(i as int),
                key@,
                label@,
            ),
        decreases n - i,
    {
        let pr = &sl.links_by_platform[i];
        assert(pairs[i as int] == (pr.0@, pr.1.url@));
        if str_eq(pr.0.as_str(), key) {
            let mut field = String::new();
            field.append("<");
            field.append(pr.1.url.as_str());
            field.append("|");
            field.append(label);
            field.append(">");
            assert(field@ =~= link_field_of(pr.1.url@, label@));
            let ghost before = out.deep_view();
            out.push(field);
            assert(out.deep_view() =~~= before.push(field@));
        }
        proof {
            assert(pairs.take(i + 1).drop_last() =~= pairs.take(i as int));
            assert(pairs.take(i + 1).last() == pairs[i as int]);
        }
        i = i + 1;
    }
    proof {
        assert(pairs.take(pairs.len() as int) =~= pairs);
    }
}

/// The label table, evaluated: each of the five approved platform keys has
/// its label, and the five keys are pairwise distinct.
pub proof fn lemma_approved_platform_labels()
    ensures
        platform_label("appleMusic"@) == Some(":apple-inc: _*Apple Music*_"@),
        platform_label("deezer"@) == Some(":deezer: _*Deezer*_"@),
        platform_label("spotify"@) == Some(":spotify: _*Spotify*_"@),
        platform_label("youtube"@) == Some(":youtube: _*Youtube*_"@),
        platform_label("youtubeMusic"@) == Some(":youtube-music: _*YT Music*_"@),
{
    reveal_strlit("appleMusic");
    reveal_strlit("deezer");
    reveal_strlit("spotify");
    reveal_strlit("youtube");
    reveal_strlit("youtubeMusic");
    assert("appleMusic"@.len() == 10);
    assert("deezer"@.len() == 6);
    assert("spotify"@.len() == 7);
    assert("youtube"@.len() == 7);
    assert("youtubeMusic"@.len() == 12);
    assert("spotify"@[0] == 's' && "youtube"@[0] == 'y');
}

/// A key no link pair carries contributes no field.
proof fn lemma_fields_for_key_absent(
    links: Seq<(Seq<char>, Seq<char>)>,
    key: Seq<char>,
    label: Seq<char>,
)
    requires
        forall|i: int| 0 <= i < links.len() ==> (#[trigger] links[i]).0 != key,
    ensures
        fields_for_key(links, key, label).len() == 0,
    decreases links.len(),
{
    if links.len() > 0 {
        assert(links.last() == links[links.len() - 1]);
        lemma_fields_for_key_absent(links.drop_last(), key, label);
    }
}

/// Law: platforms with no approved display label are omitted entirely. A
/// response none of whose platform keys is labeled contributes no field at
/// all to its links section.
pub proof fn law_unlabeled_platforms_omitted(links: Seq<(Seq<char>, Seq<char>)>)
    requires
        forall|i: int| 0 <= i < links.len() ==> platform_label(
            (#[trigger] links[i]).0,
        ) is None,
    ensures
        direct_link_fields(links).len() == 0,
{
    lemma_approved_platform_labels();
    assert forall|i: int| 0 <= i < links.len() implies (#[trigger] links[i]).0 != "appleMusic"@
        && links[i].0 != "deezer"@ && links[i].0 != "spotify"@ && links[i].0 != "youtube"@
        && links[i].0 != "youtubeMusic"@ by {
        assert(platform_label(links[i].0) is None);
    }
    lemma_fields_for_key_absent(links, "appleMusic"@, platform_label("appleMusic"@)->0);
    lemma_fields_for_key_absent(links, "deezer"@, platform_label("deezer"@)->0);
    lemma_fields_for_key_absent(links, "spotify"@, platform_label("spotify"@)->0);
    lemma_fields_for_key_absent(links, "youtube"@, platform_label("youtube"@)->0);
    lemma_fields_for_key_absent(links, "youtubeMusic"@, platform_label("youtubeMusic"@)->0);
}

/// The section block `b` is the main block for response `sl`.
pub open spec fn is_main_block_for(b: SectionBlock, sl: SonglinkResponseBody) -> bool {
    &&& b.text matches Some(t) && t@ == main_line_of(
        sl.page_url@,
        sl.entities_by_unique_id@[0].1.title@,
        sl.entities_by_unique_id@[0].1.artist_name@,
    )
    &&& b.image_url matches Some(u) && u@ == sl.entities_by_unique_id@[0].1.thumbnail_url@
    &&& b.fields@.len() == 0
}

/// The section block `b` is the per-platform links block for response `sl`.
pub open spec fn is_links_block_for(b: SectionBlock, sl: SonglinkResponseBody) -> bool {
    &&& b.text is None
    &&& b.image_url is None
    &&& b.fields.deep_view() == direct_link_fields(sl.platform_pairs())
}

/// The main display section for one response: title and artist of its
/// first entity wrapped in the page URL, with the entity's thumbnail.
pub fn build_songlink_main_block(sl_resp: &SonglinkResponseBody) -> (r: SectionBlock)
    requires
        sl_resp.has_entity(),
    ensures
        is_main_block_for(r, *sl_resp),
{
    let ent = &sl_resp.entities_by_unique_id[0].1;
    let mut text = String::new();
    text.append("<");
    text.append(sl_resp.page_url.as_str());
    text.append("|_*");
    text.append(ent.title.as_str());
    text.append("*_> \n by ");
    text.append(ent.artist_name.as_str());
    assert(text@ =~= main_line_of(sl_resp.page_url@, ent.title@, ent.artist_name@));
    SectionBlock { text: Some(text), image_url: Some(ent.thumbnail_url.clone()), fields: Vec::new() }
}

/// The per-platform links section for one response.
pub fn build_songlink_direct_links_block(sl_resp: &SonglinkResponseBody) -> (r: SectionBlock)
    ensures
        is_links_block_for(r, *sl_resp),
{
    proof {
        lemma_approved_platform_labels();
    }
    let mut fields: Vec<String> = Vec::new();
    push_fields_for_key(&mut fields, sl_resp, "appleMusic", ":apple-inc: _*Apple Music*_");
    push_fields_for_key(&mut fields, sl_resp, "deezer", ":deezer: _*Deezer*_");
    push_fields_for_key(&mut fields, sl_resp, "spotify", ":spotify: _*Spotify*_");
    push_fields_for_key(&mut fields, sl_resp, "youtube", ":youtube: _*Youtube*_");
    push_fields_for_key(&mut fields, sl_resp, "youtubeMusic", ":youtube-music: _*YT Music*_");
    assert(fields.deep_view() =~~= direct_link_fields(sl_resp.platform_pairs()));
    SectionBlock { text: None, image_url: None, fields }
}

/// Both display sections for one response, main block first.
pub fn build_songlink_full_msg(sl_resp: &SonglinkResponseBody) -> (r: Vec<SectionBlock>)
    requires
        sl_resp.has_entity(),
    ensures
        r@.len() == 2,
        is_main_block_for(r@[0], *sl_resp),
        is_links_block_for(r@[1], *sl_resp),
{
    let mut r: Vec<SectionBlock> = Vec::new();
    r.push(build_songlink_main_block(sl_resp));
    r.push(build_songlink_direct_links_block(sl_resp));
    r
}

/// The block list renders the whole batch: two sections per response, in
/// batch order, main block first.
pub open spec fn songlink_blocks_match(
    resps: Seq<SonglinkResponseBody>,
    blocks: Seq<SectionBlock>,
) -> bool {
    &&& blocks.len() == 2 * resps.len()
    &&& forall|i: int| 0 <= i < resps.len() ==> is_main_block_for(
        #[trigger] blocks[2 * i],
        resps[i],
    ) && is_links_block_for(blocks[2 * i + 1], resps[i])
}

/// The full reply for a batch of responses: two sections per response, in
/// batch order.
pub fn build_songlink_slack_message(sw_responses: Vec<SonglinkResponseBody>) -> (r:
    ComposedMessage)
    requires
        forall|i: int| 0 <= i < sw_responses@.len() ==> (#[trigger] sw_responses@[i]).has_entity(),
    ensures
        songlink_blocks_match(sw_responses@, r.blocks@),
{
    let n = sw_responses.len();
    let mut blocks: Vec<SectionBlock> = Vec::new();
    let mut i: usize = 0;
    while i < n
        invariant
            i <= n,
            n == sw_responses@.len(),
            forall|k: int| 0 <= k < n ==> (#[trigger] sw_responses@[k]).has_entity(),
            blocks@.len() == 2 * i,
            forall|k: int| 0 <= k < i ==> is_main_block_for(
                #[trigger] blocks@[2 * k],
                sw_responses@[k],
            ) && is_links_block_for(blocks@[2 * k + 1], sw_responses@[k]),
        decreases n - i,
    {
        let sl = &sw_responses[i];
        blocks.push(build_songlink_main_block(sl));
        blocks.push(build_songlink_direct_links_block(sl));
        i = i + 1;
    }
    proof {
        assert(songlink_blocks_match(sw_responses@, blocks@));
    }
    ComposedMessage { blocks }
}

/// Composes the reply for the responses that resolved, or signals nothing
/// to send: `None` exactly when there is no record, so the caller skips the
/// outbound post entirely.
pub fn compose_songlink_message(sw_responses: Vec<SonglinkResponseBody>) -> (r: Option<
    ComposedMessage,
>)
    requires
        forall|i: int| 0 <= i < sw_responses@.len() ==> (#[trigger] sw_responses@[i]).has_entity(),
    ensures
        r is Some <==> sw_responses@.len() > 0,
        r matches Some(m) ==> songlink_blocks_match(sw_responses@, m.blocks@),
{
    if sw_responses.len() == 0 {
        None
    } else {
        Some(build_songlink_slack_message(sw_responses))
    }
}

/// The artist names of a record, joined with `", "` and never a trailing
/// separator.
pub open spec fn comma_joined(names: Seq<Seq<char>>) -> Seq<char>
    decreases names.len(),
{
    if names.len() == 0 {
        Seq::empty()
    } else if names.len() == 1 {
        names[0]
    } else {
        comma_joined(names.drop_last()) + ", "@ + names.last()
    }
}

/// The artist-name views of a songwhip record.
pub open spec fn artist_names_of(artists: Seq<SongwhipArtist>) -> Seq<Seq<char>> {
    artists.map_values(|a: SongwhipArtist| a.name@)
}

/// Joins the artist names of a record with `", "`.
#[verifier::loop_isolation(false)]
pub fn join_artist_names(artists: &Vec<SongwhipArtist>) -> (r: String)
    ensures
        r@ == comma_joined(artist_names_of(artists@)),
{
    let ghost names = artist_names_of(artists@);
    let n = artists.len();
    let mut r = String::new();
    let mut i: usize = 0;
    while i < n
        invariant
            i <= n,
            n == artists@.len(),
            r@ == comma_joined(names.take(i as int)),
        decreases n - i,
    {
        if i > 0 {
            r.append(", ");
        }
        r.append(artists[i].name.as_str());
        proof {
            assert(names.take(i + 1).drop_last() =~= names.take(i as int));
            assert(names.take(i + 1).last() == names[i as int]);
            assert(names[i as int] == artists@[i as int].name@);
            if i == 0 {
                assert(comma_joined(names.take(1)) == names.take(1)[0]);
            }
        }
        i = i + 1;
    }
    proof {
        assert(names.take(n as int) =~= names);
    }
    r
}

/// The section block `b` is the display section for songwhip record `sw`.
pub open spec fn is_songwhip_block_for(b: SectionBlock, sw: SongwhipResponseBody) -> bool {
    &&& b.text matches Some(t) && t@ == main_line_of(
        sw.url@,
        sw.name@,
        comma_joined(artist_names_of(sw.artists@)),
    )
    &&& match sw.image {
        Some(img) => b.image_url matches Some(u) && u@ == img@,
        None => b.image_url is None,
    }
    &&& b.fields@.len() == 0
}

/// The display section for one songwhip record: title and joined artists
/// wrapped in the page URL, with the thumbnail only if one is present.
pub fn build_songwhip_main_block(sw: &SongwhipResponseBody) -> (r: SectionBlock)
    ensures
        is_songwhip_block_for(r, *sw),
{
    let joined = join_artist_names(&sw.artists);
    let mut text = String::new();
    text.append("<");
    text.append(sw.url.as_str());
    text.append("|_*");
    text.append(sw.name.as_str());
    text.append("*_> \n by ");
    text.append(joined.as_str());
    assert(text@ =~= main_line_of(sw.url@, sw.name@, comma_joined(artist_names_of(sw.artists@))));
    let image_url = match &sw.image {
        Some(img) => Some(img.clone()),
        None => None,
    };
    SectionBlock { text: Some(text), image_url, fields: Vec::new() }
}

/// The block list renders the whole songwhip batch: one section per
/// record, in batch order.
pub open spec fn songwhip_blocks_match(
    resps: Seq<SongwhipResponseBody>,
    blocks: Seq<SectionBlock>,
) -> bool {
    &&& blocks.len() == resps.len()
    &&& forall|i: int| 0 <= i < resps.len() ==> is_songwhip_block_for(
        #[trigger] blocks[i],
        resps[i],
    )
}

/// The full reply for a batch of songwhip records: one section per record,
/// in batch order.
pub fn build_songwhip_slack_message(sw_responses: Vec<SongwhipResponseBody>) -> (r:
    ComposedMessage)
    ensures
        songwhip_blocks_match(sw_responses@, r.blocks@),
{
    let n = sw_responses.len();
    let mut blocks: Vec<SectionBlock> = Vec::new();
    let mut i: usize = 0;
    while i < n
        invariant
            i <= n,
            n == sw_responses@.len(),
            blocks@.len() == i,
            forall|k: int| 0 <= k < i ==> is_songwhip_block_for(
                #[trigger] blocks@[k],
                sw_responses@[k],
            ),
        decreases n - i,
    {
        blocks.push(build_songwhip_main_block(&sw_responses[i]));
        i = i + 1;
    }
    proof {
        assert(songwhip_blocks_match(sw_responses@, blocks@));
    }
    ComposedMessage { blocks }
}

/// Composes the reply for the songwhip records that resolved, or signals
/// nothing to send: `None` exactly when there is no record.
pub fn compose_songwhip_message(sw_responses: Vec<SongwhipResponseBody>) -> (r: Option<
    ComposedMessage,
>)
    ensures
        r is Some <==> sw_responses@.len() > 0,
        r matches Some(m) ==> songwhip_blocks_match(sw_responses@, m.blocks@),
{
    if sw_responses.len() == 0 {
        None
    } else {
        Some(build_songwhip_slack_message(sw_responses))
    }
}

/// An emoji name wrapped in colons: both already present stays as is, a
/// missing side is added.
pub open spec fn emoji_coloned(s: Seq<char>) -> Seq<char> {
    if s.len() >= 2 && s[0] == ':' && s[s.len() - 1] == ':' {
        s
    } else if s.len() >= 1 && s[0] == ':' {
        s + ":"@
    } else if s.len() >= 1 && s[s.len() - 1] == ':' {
        ":"@ + s
    } else {
        ":"@ + s + ":"@
    }
}

/// Wraps an emoji name in colons, adding only the missing ones.
pub fn add_emoji_colons(emoji_name: &str) -> (r: String)
    ensures
        r@ == emoji_coloned(emoji_name@),
{
    let len = emoji_name.unicode_len();
    let starts = len >= 1 && emoji_name.get_char(0) == ':';
    let ends = len >= 1 && emoji_name.get_char(len - 1) == ':';
    let mut r = String::new();
    if len >= 2 && starts && ends {
        r.append(emoji_name);
    } else if starts {
        r.append(emoji_name);
        r.append(":");
    } else if ends {
        r.append(":");
        r.append(emoji_name);
    } else {
        r.append(":");
        r.append(emoji_name);
        r.append(":");
    }
    assert(r@ =~= emoji_coloned(emoji_name@));
    r
}

} // verus!
