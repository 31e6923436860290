use vstd::prelude::*;
use vstd::string::*;

use crate::args::Platform;

verus! {

/// The web-app manifest written beside the HTML template.
pub const MANIFEST: &'static str = "{
  \"icons\": [
    { \"src\": \"/192.png\", \"type\": \"image/png\", \"sizes\": \"192x192\" },
    { \"src\": \"/512.png\", \"type\": \"image/png\", \"sizes\": \"512x512\" }
  ]
}
";

/// Everything of the template up to the first platform tag.
pub const TEMPLATE_HEAD: &'static str = "<!DOCTYPE html>
<html>
<head>
  <meta charset=\"UTF-8\">
  <meta http-equiv=\"X-UA-Compatible\" content=\"IE=edge\">
  <meta name=\"viewport\" content=\"width=device-width, initial-scale=1.0\">
  <title>Sample Fav Project</title>
  ";

/// Everything of the template after the last platform tag.
pub const TEMPLATE_TAIL: &'static str = "
</head>

<body>

</body>
</html>
";

/// What stands between two consecutive platform tags.
pub const TAG_SEPARATOR: &'static str = "\n  ";

/// The markup that announces the favicons of one platform.
pub open spec fn fragment(p: Platform) -> Seq<char> {
    match p {
        Platform::Web => "<link rel=\"icon\" href=\"/favicon.ico\" sizes=\"32x32\">"@,
        Platform::Modern => "<link rel=\"icon\" href=\"/icon.svg\" type=\"image/svg+xml\">"@,
        Platform::Apple => "<link rel=\"apple-touch-icon\" href=\"/apple-touch-icon.png\">"@,
        Platform::Android => "<link rel=\"manifest\" href=\"/manifest.webmanifest\">"@,
    }
}

/// The tags of the given platforms, in the order given.
pub open spec fn fragments(ps: Seq<Platform>) -> Seq<Seq<char>> {
    ps.map_values(|p: Platform| fragment(p))
}

/// The parts, with `sep` between each two neighbours.
pub open spec fn join(parts: Seq<Seq<char>>, sep: Seq<char>) -> Seq<char>
    decreases parts.len(),
{
    if parts.len() == 0 {
        Seq::empty()
    } else if parts.len() == 1 {
        parts[0]
    } else {
        join(parts.drop_last(), sep) + sep + parts.last()
    }
}

/// The whole HTML document for the given platforms.
pub open spec fn template_text(ps: Seq<Platform>) -> Seq<char> {
    TEMPLATE_HEAD@ + join(fragments(ps), TAG_SEPARATOR@) + TEMPLATE_TAIL@
}

/// The markup of one platform; total over the enum, so no platform lacks one.
pub fn fragment_tag(p: Platform) -> (r: &'static str)
    ensures
        r@ == fragment(p),
{
    match p {
        Platform::Web => "<link rel=\"icon\" href=\"/favicon.ico\" sizes=\"32x32\">",
        Platform::Modern => "<link rel=\"icon\" href=\"/icon.svg\" type=\"image/svg+xml\">",
        Platform::Apple => "<link rel=\"apple-touch-icon\" href=\"/apple-touch-icon.png\">",
        Platform::Android => "<link rel=\"manifest\" href=\"/manifest.webmanifest\">",
    }
}

/// Builds the quick-start HTML document, with one tag per platform in the
/// order of `platforms`.
pub fn generate_template(platforms: Vec<Platform>) -> (r: String)
    ensures
        r@ == template_text(platforms@),
{
    let mut out = String::from_str(TEMPLATE_HEAD);
    let mut i: usize = 0;
    while i < platforms.len()
        invariant
            i <= platforms@.len(),
            out@ == TEMPLATE_HEAD@ + join(fragments(platforms@.take(i as int)), TAG_SEPARATOR@),
        decreases platforms@.len() - i,
    {
        let ghost before = fragments(platforms@.take(i as int));
        let ghost after = fragments(platforms@.take(i + 1));
        assert(after.drop_last() =~= before);
        assert(after.last() == fragment(platforms@[i as int]));
        if i > 0 {
            out.append(TAG_SEPARATOR);
        }
        out.append(fragment_tag(platforms[i]));
        i += 1;
    }
    assert(platforms@.take(platforms@.len() as int) =~= platforms@);
    out.append(TEMPLATE_TAIL);
    out
}

/// No two platforms share a tag.
pub proof fn lemma_fragment_injective(p: Platform, q: Platform)
    ensures
        fragment(p) == fragment(q) ==> p == q,
{
    reveal_strlit("<link rel=\"icon\" href=\"/favicon.ico\" sizes=\"32x32\">");
    reveal_strlit("<link rel=\"icon\" href=\"/icon.svg\" type=\"image/svg+xml\">");
    reveal_strlit("<link rel=\"apple-touch-icon\" href=\"/apple-touch-icon.png\">");
    reveal_strlit("<link rel=\"manifest\" href=\"/manifest.webmanifest\">");
    if p != q {
        assert(fragment(p)[11] != fragment(q)[11] || fragment(p)[24] != fragment(q)[24]);
    }
}

/// A tag occurs among the tags of `ps` as often as its platform occurs in
/// `ps`; text that is no platform's tag does not occur.
pub proof fn lemma_fragment_count(ps: Seq<Platform>, x: Seq<char>)
    ensures
        fragments(ps).to_multiset().count(x) == (if exists|p: Platform| fragment(p) == x {
            ps.to_multiset().count(choose|p: Platform| fragment(p) == x)
        } else {
            0
        }),
    decreases ps.len(),
{
    broadcast use vstd::seq_lib::group_to_multiset_ensures;
    if ps.len() == 0 {
        assert(fragments(ps) =~= Seq::<Seq<char>>::empty());
    } else {
        let init = ps.drop_last();
        let p = ps.last();
        lemma_fragment_count(init, x);
        assert(init.push(p) =~= ps);
        assert(fragments(init).push(fragment(p)) =~= fragments(ps));
        if exists|q: Platform| fragment(q) == x {
            let q = choose|q: Platform| fragment(q) == x;
            lemma_fragment_injective(p, q);
        }
    }
}

/// Reordering the platforms reorders their tags and nothing else: the tags
/// emitted for a permutation of `ps` are a permutation of those for `ps`.
pub proof fn lemma_reorder_keeps_tags(ps: Seq<Platform>, qs: Seq<Platform>)
    requires
        ps.to_multiset() == qs.to_multiset(),
    ensures
        fragments(ps).to_multiset() == fragments(qs).to_multiset(),
        fragments(ps).len() == fragments(qs).len(),
{
    broadcast use vstd::seq_lib::group_to_multiset_ensures;
    assert forall|x: Seq<char>|
        fragments(ps).to_multiset().count(x) == fragments(qs).to_multiset().count(x) by {
        lemma_fragment_count(ps, x);
        lemma_fragment_count(qs, x);
    }
    assert(fragments(ps).to_multiset() =~= fragments(qs).to_multiset());
    assert(ps.len() == ps.to_multiset().len());
    assert(qs.len() == qs.to_multiset().len());
}

} // verus!
