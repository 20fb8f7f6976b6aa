//! The record extractor.
//!
//! One fetched page holds a list of candidate nodes, one per feed item.  The
//! engine reads each candidate through the `select` crate into a
//! [`CandidateNode`]: the two structural sub-areas it needs ("thumb area" and
//! "name area") and the raw attribute strings on them.  Turning a candidate
//! into a [`VLiveVideo`] record — defaulting absent attributes, parsing the
//! numeric identifiers, mapping the type markers — is the library's own
//! logic and is verified here against the field-mapping rules.

use vstd::prelude::*;
use vstd::string::StrSliceExecFns;

use select::predicate::Attr;
use select::predicate::Class;

use crate::record::ChannelType;
use crate::record::VLiveVideo;
use crate::record::VideoType;
use crate::record::VideoView;
use crate::record::video_views;

verus! {

// ---------------------------------------------------------------------------
// Candidate nodes: what the engine reads off one node of the page.
// ---------------------------------------------------------------------------

/// The attributes of the "thumb area" sub-node of one candidate, each absent
/// or present as a raw string.
#[derive(Debug)]
pub struct ThumbAttrs {
    /// `href`: the user-facing video ID.
    pub href: Option<String>,
    /// `data-seq`: the sequential video ID, as an unparsed string.
    pub seq: Option<String>,
    /// `data-ga-name`: the video title.
    pub title: Option<String>,
    /// `data-ga-type`: `"LIVE"` marks a live stream.
    pub kind: Option<String>,
    /// `src` of the last descendant that carries a `src` attribute: the
    /// thumbnail URL.
    pub src: Option<String>,
    /// `data-ga-cseq`: the sequential channel ID, as an unparsed string.
    pub cseq: Option<String>,
    /// `data-ga-cname`: the channel name.
    pub cname: Option<String>,
    /// `data-ga-ctype`: `"PLUS"` marks a premium channel.
    pub ctype: Option<String>,
}

/// The attributes of the "name area" sub-node of one candidate.
#[derive(Debug)]
pub struct NameAttrs {
    /// `href`: the user-facing channel ID.
    pub href: Option<String>,
}

/// One candidate node of a fetched page, reduced to the plain values the
/// extractor reads: each required sub-area either absent or present with its
/// attributes.
#[derive(Debug)]
pub struct CandidateNode {
    pub thumb: Option<ThumbAttrs>,
    pub name: Option<NameAttrs>,
}

/// The mathematical value of a thumb area: every string replaced by its
/// character sequence.
#[verifier::ext_equal]
pub ghost struct ThumbView {
    pub href: Option<Seq<char>>,
    pub seq: Option<Seq<char>>,
    pub title: Option<Seq<char>>,
    pub kind: Option<Seq<char>>,
    pub src: Option<Seq<char>>,
    pub cseq: Option<Seq<char>>,
    pub cname: Option<Seq<char>>,
    pub ctype: Option<Seq<char>>,
}

/// The mathematical value of a candidate node.
#[verifier::ext_equal]
pub ghost struct CandView {
    pub thumb: Option<ThumbView>,
    /// `None` when the name area is absent; otherwise its `href` attribute.
    pub name_href: Option<Option<Seq<char>>>,
}

/// The view of an optional string.
pub open spec fn opt_view(o: Option<String>) -> Option<Seq<char>> {
    match o {
        Some(s) => Some(s@),
        None => None,
    }
}

impl View for ThumbAttrs {
    type V = ThumbView;

    open spec fn view(&self) -> ThumbView {
        ThumbView {
            href: opt_view(self.href),
            seq: opt_view(self.seq),
            title: opt_view(self.title),
            kind: opt_view(self.kind),
            src: opt_view(self.src),
            cseq: opt_view(self.cseq),
            cname: opt_view(self.cname),
            ctype: opt_view(self.ctype),
        }
    }
}

impl View for CandidateNode {
    type V = CandView;

    open spec fn view(&self) -> CandView {
        CandView {
            thumb: match self.thumb {
                Some(t) => Some(t@),
                None => None,
            },
            name_href: match self.name {
                Some(n) => Some(opt_view(n.href)),
                None => None,
            },
        }
    }
}

/// The views of a sequence of candidate nodes, element by element.
pub open spec fn cand_views(s: Seq<CandidateNode>) -> Seq<CandView> {
    s.map_values(|c: CandidateNode| c@)
}

// ---------------------------------------------------------------------------
// Parsing an unsigned decimal, as the numeric feed identifiers demand it.
// ---------------------------------------------------------------------------

/// Whether `c` is a decimal digit.
pub open spec fn is_digit_char(c: char) -> bool {
    '0' as int <= c as int <= '9' as int
}

/// The numeric value of a digit.
pub open spec fn digit_val(c: char) -> int {
    c as int - '0' as int
}

/// Whether every character of `s` is a decimal digit.
pub open spec fn all_digits(s: Seq<char>) -> bool {
    forall|i: int| 0 <= i < s.len() ==> is_digit_char(#[trigger] s[i])
}

/// The value of a string of decimal digits, most significant first.
pub open spec fn digits_value(s: Seq<char>) -> int
    decreases s.len(),
{
    if s.len() == 0 {
        0
    } else {
        digits_value(s.drop_last()) * 10 + digit_val(s.last())
    }
}

/// The digits of a decimal string: the string itself, or what follows an
/// optional leading `'+'`.
pub open spec fn plus_stripped(s: Seq<char>) -> Seq<char> {
    if s.len() > 0 && s[0] == '+' {
        s.drop_first()
    } else {
        s
    }
}

/// What parsing an unsigned 32-bit decimal accepts: an optional leading
/// `'+'`, then at least one digit, and a value within range.
pub open spec fn spec_parse_u32(s: Seq<char>) -> Option<u32> {
    let digits = plus_stripped(s);
    if digits.len() > 0 && all_digits(digits) && digits_value(digits) <= u32::MAX {
        Some(digits_value(digits) as u32)
    } else {
        None
    }
}

proof fn lemma_all_digits_sub(s: Seq<char>, t: Seq<char>, lo: int)
    requires
        all_digits(s),
        0 <= lo,
        lo + t.len() <= s.len(),
        t =~= s.subrange(lo, lo + t.len() as int),
    ensures
        all_digits(t),
{
    assert forall|i: int| 0 <= i < t.len() implies is_digit_char(#[trigger] t[i]) by {
        assert(t[i] == s[lo + i]);
    }
}

proof fn lemma_digits_value_nonneg(s: Seq<char>)
    requires
        all_digits(s),
    ensures
        digits_value(s) >= 0,
    decreases s.len(),
{
    if s.len() > 0 {
        assert forall|i: int| 0 <= i < s.drop_last().len() implies is_digit_char(
            #[trigger] s.drop_last()[i],
        ) by {
            assert(s.drop_last()[i] == s[i]);
        }
        lemma_digits_value_nonneg(s.drop_last());
    }
}

/// A digit string is worth at least any of its prefixes.
proof fn lemma_digits_value_prefix(s: Seq<char>, j: int)
    requires
        all_digits(s),
        0 <= j <= s.len(),
    ensures
        digits_value(s.take(j)) <= digits_value(s),
    decreases s.len() - j,
{
    if j < s.len() {
        assert(s.take(j + 1).drop_last() =~= s.take(j));
        assert(s.take(j + 1).last() == s[j]);
        assert(s.take(j) =~= s.subrange(0, 0 + s.take(j).len() as int));
        lemma_all_digits_sub(s, s.take(j), 0);
        lemma_digits_value_nonneg(s.take(j));
        assert(digits_value(s.take(j + 1)) == digits_value(s.take(j)) * 10 + digit_val(s[j]));
        assert(digits_value(s.take(j)) * 10 >= digits_value(s.take(j))) by (nonlinear_arith)
            requires
                digits_value(s.take(j)) >= 0,
        ;
        lemma_digits_value_prefix(s, j + 1);
    } else {
        assert(s.take(j) =~= s);
    }
}

/// Parse an unsigned 32-bit decimal exactly as the feed identifiers need it:
/// an optional leading `'+'`, then one or more digits, rejecting anything
/// else and any value over `u32::MAX`.
pub fn parse_u32(s: &str) -> (r: Option<u32>)
    ensures
        r == spec_parse_u32(s@),
{
    let n = s.unicode_len();
    let start: usize = if n > 0 && s.get_char(0) == '+' {
        1
    } else {
        0
    };
    let ghost digits = s@.subrange(start as int, n as int);
    proof {
        if start == 1 {
            assert(digits =~= s@.drop_first());
        } else {
            assert(digits =~= s@);
        }
    }
    if n == start {
        return None;
    }
    let mut i: usize = start;
    let mut acc: u32 = 0;
    while i < n
        invariant
            start <= i <= n,
            n == s@.len(),
            start == 1 ==> n > 0 && s@[0] == '+',
            start == 0 ==> !(n > 0 && s@[0] == '+'),
            digits =~= s@.subrange(start as int, n as int),
            digits == plus_stripped(s@),
            forall|j: int| start <= j < i ==> is_digit_char(#[trigger] s@[j]),
            acc == digits_value(s@.subrange(start as int, i as int)),
        decreases n - i,
    {
        let c = s.get_char(i);
        let cv = c as u32;
        if cv < 48 || cv > 57 {
            proof {
                assert(digits[i - start] == s@[i as int]);
                assert(!is_digit_char(s@[i as int]));
            }
            return None;
        }
        let d: u32 = cv - 48;
        let ghost prefix = s@.subrange(start as int, i as int);
        let ghost prefix1 = s@.subrange(start as int, i + 1 as int);
        proof {
            assert(prefix1.drop_last() =~= prefix);
            assert(prefix1.last() == s@[i as int]);
            assert(digits_value(prefix1) == acc * 10 + d);
        }
        if acc > (u32::MAX - d) / 10 {
            proof {
                assert(acc * 10 + d > u32::MAX) by (nonlinear_arith)
                    requires
                        acc > (u32::MAX - d) / 10,
                        0 <= d <= 9,
                        acc >= 0,
                ;
                if all_digits(digits) && digits_value(digits) <= u32::MAX {
                    assert(prefix1 =~= digits.take(i + 1 - start));
                    lemma_digits_value_prefix(digits, i + 1 - start);
                    assert(false);
                }
            }
            return None;
        }
        proof {
            assert(acc * 10 + d <= u32::MAX) by (nonlinear_arith)
                requires
                    acc <= (u32::MAX - d) / 10,
                    0 <= d <= 9,
                    acc >= 0,
            ;
        }
        acc = acc * 10 + d;
        i = i + 1;
    }
    proof {
        assert(digits =~= s@.subrange(start as int, i as int));
        assert(all_digits(digits)) by {
            assert forall|j: int| 0 <= j < digits.len() implies is_digit_char(
                #[trigger] digits[j],
            ) by {
                assert(digits[j] == s@[j + start]);
            }
        }
    }
    Some(acc)
}

/// Whether two strings hold the same characters.
pub fn str_eq(a: &str, b: &str) -> (r: bool)
    ensures
        r == (a@ == b@),
{
    let na = a.unicode_len();
    let nb = b.unicode_len();
    if na != nb {
        return false;
    }
    let mut i: usize = 0;
    while i < na
        invariant
            i <= na,
            na as nat == a@.len(),
            nb as nat == b@.len(),
            na == nb,
            forall|j: int| 0 <= j < i ==> a@[j] == b@[j],
        decreases na - i,
    {
        if a.get_char(i) != b.get_char(i) {
            return false;
        }
        i = i + 1;
    }
    proof {
        assert(a@ =~= b@);
    }
    true
}

// ---------------------------------------------------------------------------
// The field-mapping rules: candidate node -> record.
// ---------------------------------------------------------------------------

/// An absent display or identifier attribute defaults to the empty string.
pub open spec fn or_empty(o: Option<Seq<char>>) -> Seq<char> {
    match o {
        Some(s) => s,
        None => Seq::empty(),
    }
}

/// The value of a numeric identifier attribute: absent defaults to 0, present
/// it must parse as an unsigned 32-bit decimal, else the node is unparseable.
pub open spec fn seq_attr_value(o: Option<Seq<char>>) -> Option<u32> {
    match o {
        Some(s) => spec_parse_u32(s),
        None => Some(0u32),
    }
}

/// What extraction yields for one candidate node: `None` — unparseable, the
/// node is skipped — when either required sub-area is absent or a numeric
/// identifier fails to parse; otherwise the record given by the field-mapping
/// rules.
pub open spec fn extract_spec(c: CandView) -> Option<VideoView> {
    match (c.thumb, c.name_href) {
        (Some(t), Some(nh)) => match (seq_attr_value(t.seq), seq_attr_value(t.cseq)) {
            (Some(vs), Some(cs)) => Some(
                VideoView {
                    video_id: or_empty(t.href),
                    video_seq: vs,
                    video_title: or_empty(t.title),
                    video_type: if t.kind == Some("LIVE"@) {
                        VideoType::LIVE
                    } else {
                        VideoType::VOD
                    },
                    video_thumbnail: t.src,
                    channel_id: or_empty(nh),
                    channel_seq: cs,
                    channel_name: or_empty(t.cname),
                    channel_type: if t.ctype == Some("PLUS"@) {
                        ChannelType::PLUS
                    } else {
                        ChannelType::BASIC
                    },
                },
            ),
            _ => None,
        },
        _ => None,
    }
}

fn unwrap_or_empty(o: Option<String>) -> (r: String)
    ensures
        r@ == or_empty(opt_view(o)),
{
    match o {
        Some(s) => s,
        None => String::new(),
    }
}

/// Extract one record from one candidate node, or `None` when the node is
/// unparseable: a required sub-area is missing or a numeric identifier does
/// not parse.  An unparseable node is never fatal; the caller skips it.
pub fn extract_record(c: CandidateNode) -> (r: Option<VLiveVideo>)
    ensures
        match r {
            Some(v) => extract_spec(c@) == Some(v@),
            None => extract_spec(c@) is None,
        },
{
    let ghost cv = c@;
    let CandidateNode { thumb, name } = c;
    let t = match thumb {
        Some(t) => t,
        None => {
            return None;
        },
    };
    let nm = match name {
        Some(n) => n,
        None => {
            return None;
        },
    };
    let ThumbAttrs { href, seq, title, kind, src, cseq, cname, ctype } = t;
    let video_seq: u32 = match seq {
        Some(s) => match parse_u32(s.as_str()) {
            Some(v) => v,
            None => {
                return None;
            },
        },
        None => 0,
    };
    let channel_seq: u32 = match cseq {
        Some(s) => match parse_u32(s.as_str()) {
            Some(v) => v,
            None => {
                return None;
            },
        },
        None => 0,
    };
    let video_type = match &kind {
        Some(k) => if str_eq(k.as_str(), "LIVE") {
            VideoType::LIVE
        } else {
            VideoType::VOD
        },
        None => VideoType::VOD,
    };
    let channel_type = match &ctype {
        Some(k) => if str_eq(k.as_str(), "PLUS") {
            ChannelType::PLUS
        } else {
            ChannelType::BASIC
        },
        None => ChannelType::BASIC,
    };
    let rec = VLiveVideo {
        video_id: unwrap_or_empty(href),
        video_seq,
        video_title: unwrap_or_empty(title),
        video_type,
        video_thumbnail: src,
        channel_id: unwrap_or_empty(nm.href),
        channel_seq,
        channel_name: unwrap_or_empty(cname),
        channel_type,
    };
    proof {
        match extract_spec(cv) {
            Some(v) => {
                assert(v =~= rec@);
            },
            None => {
                assert(false);
            },
        }
    }
    Some(rec)
}

// ---------------------------------------------------------------------------
// A whole page: candidate nodes -> snapshot.
// ---------------------------------------------------------------------------

/// The snapshot a sequence of candidate nodes yields: one record per
/// parseable node, in page order (freshest first), unparseable nodes skipped.
pub open spec fn snapshot_spec(cands: Seq<CandView>) -> Seq<VideoView>
    decreases cands.len(),
{
    if cands.len() == 0 {
        Seq::empty()
    } else {
        match extract_spec(cands.first()) {
            Some(v) => seq![v] + snapshot_spec(cands.drop_first()),
            None => snapshot_spec(cands.drop_first()),
        }
    }
}

/// Build the snapshot of one page: run the extractor over every candidate in
/// order, keeping the parseable ones and skipping the rest.
pub fn build_snapshot(cands: Vec<CandidateNode>) -> (snapshot: Vec<VLiveVideo>)
    ensures
        video_views(snapshot@) == snapshot_spec(cand_views(cands@)),
{
    let ghost orig = cands@;
    let mut cands = cands;
    let mut out: Vec<VLiveVideo> = Vec::new();
    while cands.len() > 0
        invariant
            snapshot_spec(cand_views(orig)) =~= video_views(out@) + snapshot_spec(
                cand_views(cands@),
            ),
        decreases cands@.len(),
    {
        let ghost cur = cands@;
        let node = cands.remove(0);
        proof {
            assert(node == cur[0]);
            assert(cands@ =~= cur.drop_first());
            assert(cand_views(cur).len() > 0);
            assert(cand_views(cur).first() == cur[0]@);
            assert(cand_views(cur).drop_first() =~= cand_views(cur.drop_first()));
        }
        match extract_record(node) {
            Some(rec) => {
                proof {
                    assert(snapshot_spec(cand_views(cur)) =~= seq![rec@] + snapshot_spec(
                        cand_views(cands@),
                    ));
                }
                out.push(rec);
                proof {
                    assert(video_views(out@) =~= video_views(out@.drop_last()).push(rec@));
                }
            },
            None => {
                proof {
                    assert(snapshot_spec(cand_views(cur)) =~= snapshot_spec(cand_views(cands@)));
                }
            },
        }
        proof {
            assert(snapshot_spec(cand_views(orig)) =~= video_views(out@) + snapshot_spec(
                cand_views(cands@),
            ));
        }
    }
    proof {
        assert(cand_views(cands@).len() == 0);
        assert(video_views(out@) + snapshot_spec(cand_views(cands@)) =~= video_views(out@));
    }
    out
}

// ---------------------------------------------------------------------------
// Reading the candidates off a fetched page, through the select crate.
// ---------------------------------------------------------------------------

#[verifier::external_type_specification]
#[verifier::external_body]
pub struct ExNode<'a>(select::node::Node<'a>);

/// The candidate nodes a page of markup holds: what reading the page through
/// the document-query facility yields.  Parsing markup is a pure function of
/// the text, so the result is named rather than written out.
pub uninterp spec fn candidates_of(html: Seq<char>) -> Seq<CandView>;

/// Relies on select's `Attr` presence predicate, `Node::find` and
/// `Node::attr`: the `src` attribute of the last descendant that carries
/// one — the thumbnail URL, when there is any.
#[verifier::external_body]
fn src_attr_of<'a>(area: select::node::Node<'a>) -> (r: Option<String>) {
    area.find(Attr("src", ())).last().and_then(|d| d.attr("src")).map(|v| v.to_string())
}

/// Relies on select's `Class` predicate, `Node::find` and `Node::attr`: the
/// last descendant whose `class` holds `thumb_area`, and its attributes,
/// read as plain strings.
#[verifier::external_body]
fn thumb_attrs_of<'a>(node: select::node::Node<'a>) -> (r: Option<ThumbAttrs>) {
    let t = node.find(Class("thumb_area")).last()?;
    Some(ThumbAttrs {
        href: t.attr("href").map(|v| v.to_string()),
        seq: t.attr("data-seq").map(|v| v.to_string()),
        title: t.attr("data-ga-name").map(|v| v.to_string()),
        kind: t.attr("data-ga-type").map(|v| v.to_string()),
        src: src_attr_of(t),
        cseq: t.attr("data-ga-cseq").map(|v| v.to_string()),
        cname: t.attr("data-ga-cname").map(|v| v.to_string()),
        ctype: t.attr("data-ga-ctype").map(|v| v.to_string()),
    })
}

/// Relies on select's `Class` predicate, `Node::find` and `Node::attr`: the
/// last descendant whose `class` holds `name`, and its `href` attribute.
#[verifier::external_body]
fn name_attrs_of<'a>(node: select::node::Node<'a>) -> (r: Option<NameAttrs>) {
    let n = node.find(Class("name")).last()?;
    Some(NameAttrs { href: n.attr("href").map(|v| v.to_string()) })
}

/// Relies on select's `Document::from`, which parses the markup, and
/// `Document::find` with the `Class` predicate, which yields the nodes whose
/// `class` holds `video_list_cont` in document order; the result is a
/// function of the text alone.
#[verifier::external_body]
fn read_candidates(html: &str) -> (r: Vec<CandidateNode>)
    ensures
        cand_views(r@) == candidates_of(html@),
{
    let document = select::document::Document::from(html);
    let mut out: Vec<CandidateNode> = Vec::new();
    for node in document.find(Class("video_list_cont")) {
        out.push(CandidateNode { thumb: thumb_attrs_of(node), name: name_attrs_of(node) });
    }
    out
}

/// Parse one fetched page into a snapshot: one record per parseable
/// candidate node, freshest first, unparseable nodes skipped individually.
pub fn snapshot_from_html(html: &str) -> (snapshot: Vec<VLiveVideo>)
    ensures
        video_views(snapshot@) == snapshot_spec(candidates_of(html@)),
{
    let cands = read_candidates(html);
    build_snapshot(cands)
}

} // verus!
