//! The badge line: one inline image link per item, all on one line.

use vstd::prelude::*;
use crate::model::{views, Badge, LearningItem, LearningItemView, Technology, TechnologyView};
use crate::text::concat;

verus! {

/// The image link of one badge: `![name](badge) `, with the blank that
/// separates it from the next one.
pub open spec fn badge_token(b: Badge) -> Seq<char> {
    "!["@ + b.name + "]("@ + b.badge + ") "@
}

/// The image links of `badges`: one for each, in the same order.
pub open spec fn badge_tokens(badges: Seq<Badge>) -> Seq<Seq<char>> {
    Seq::new(badges.len(), |i: int| badge_token(badges[i]))
}

/// The badge line: the image links of `badges` one after the other.
pub open spec fn badge_line(badges: Seq<Badge>) -> Seq<char> {
    concat(badge_tokens(badges))
}

/// What the badge line shows of each technology.
pub open spec fn technology_badges(items: Seq<TechnologyView>) -> Seq<Badge> {
    Seq::new(items.len(), |i: int| items[i].badge())
}

/// What the badge line shows of each learning item.
pub open spec fn learning_badges(items: Seq<LearningItemView>) -> Seq<Badge> {
    Seq::new(items.len(), |i: int| items[i].badge())
}

/// Appends the image link of one badge to `out`.
pub fn push_badge(out: &mut String, name: &str, badge: &str)
    ensures
        final(out)@ == old(out)@ + badge_token(Badge { name: name@, badge: badge@ }),
{
    out.append("![");
    out.append(name);
    out.append("](");
    out.append(badge);
    out.append(") ");
    assert(final(out)@ =~= old(out)@ + badge_token(Badge { name: name@, badge: badge@ }));
}

/// The badge line of the technologies in use.
pub fn render_technologies(items: &Vec<Technology>) -> (line: String)
    ensures
        line@ == badge_line(technology_badges(views(items@))),
{
    let ghost badges = technology_badges(views(items@));
    let mut line = String::new();
    let mut i: usize = 0;
    while i < items.len()
        invariant
            i <= items.len(),
            badges == technology_badges(views(items@)),
            line@ == badge_line(badges.take(i as int)),
        decreases items.len() - i,
    {
        push_badge(&mut line, items[i].name.as_str(), items[i].badge.as_str());
        proof {
            lemma_badge_line_step(badges, i as int);
        }
        i = i + 1;
    }
    assert(badges.take(i as int) =~= badges);
    line
}

/// The badge line of the things being learnt. The reasons do not appear.
pub fn render_learning(items: &Vec<LearningItem>) -> (line: String)
    ensures
        line@ == badge_line(learning_badges(views(items@))),
{
    let ghost badges = learning_badges(views(items@));
    let mut line = String::new();
    let mut i: usize = 0;
    while i < items.len()
        invariant
            i <= items.len(),
            badges == learning_badges(views(items@)),
            line@ == badge_line(badges.take(i as int)),
        decreases items.len() - i,
    {
        push_badge(&mut line, items[i].name.as_str(), items[i].badge.as_str());
        proof {
            lemma_badge_line_step(badges, i as int);
        }
        i = i + 1;
    }
    assert(badges.take(i as int) =~= badges);
    line
}

/// The line of the first `i + 1` badges is the line of the first `i`
/// followed by the link of the one at `i`.
proof fn lemma_badge_line_step(badges: Seq<Badge>, i: int)
    requires
        0 <= i < badges.len(),
    ensures
        badge_line(badges.take(i + 1)) == badge_line(badges.take(i)) + badge_token(badges[i]),
{
    let longer = badge_tokens(badges.take(i + 1));
    assert(longer.drop_last() =~= badge_tokens(badges.take(i)));
    assert(longer.last() == badge_token(badges[i]));
}

/// The badge line holds exactly one image link per item, in the order of
/// the items, and each link is made of that item's name and badge alone.
pub proof fn badge_line_has_one_link_per_item(badges: Seq<Badge>)
    ensures
        badge_line(badges) == concat(badge_tokens(badges)),
        badge_tokens(badges).len() == badges.len(),
        forall|i: int|
            0 <= i < badges.len() ==> #[trigger] badge_tokens(badges)[i] == "!["@
                + badges[i].name + "]("@ + badges[i].badge + ") "@,
{
}

/// With no item the badge line is empty: there is no placeholder.
pub proof fn empty_collection_gives_an_empty_line()
    ensures
        badge_line(Seq::empty()) == Seq::<char>::empty(),
        badge_line(technology_badges(Seq::empty())) == Seq::<char>::empty(),
        badge_line(learning_badges(Seq::empty())) == Seq::<char>::empty(),
{
    assert(badge_tokens(Seq::empty()) =~= Seq::empty());
    assert(technology_badges(Seq::empty()) =~= Seq::empty());
    assert(learning_badges(Seq::empty()) =~= Seq::empty());
}

/// Two lists of learning items that agree on every name and badge give the
/// same badge line, whatever their reasons say.
pub proof fn learning_line_ignores_reasons(a: Seq<LearningItemView>, b: Seq<LearningItemView>)
    requires
        a.len() == b.len(),
        forall|i: int| 0 <= i < a.len() ==> a[i].name == b[i].name && a[i].badge == b[i].badge,
    ensures
        badge_line(learning_badges(a)) == badge_line(learning_badges(b)),
{
    assert(learning_badges(a) =~= learning_badges(b));
}

} // verus!
