//! How combined filters read: a disjunction holds where one of its sides does, a conjunction where
//! both do, and a negation where what it negates does not.

use vstd::prelude::*;

use crate::decimal;
use crate::distance::SurrealDistanceFunction;
use crate::filter::SurrealSearchFilter;
use crate::grouping;
use crate::laws::filters;
use crate::laws::statements;
use crate::statement;

verus! {

/// Between the sides of a disjunction.
pub open spec fn or_word() -> Seq<char> {
    seq![' ', 'O', 'R', ' ']
}

/// Between the sides of a conjunction.
pub open spec fn and_word() -> Seq<char> {
    seq![' ', 'A', 'N', 'D', ' ']
}

/// In front of what a negation negates.
pub open spec fn not_word() -> Seq<char> {
    seq!['N', 'O', 'T', ' ']
}

/// Whether `word` stands in `text` from position `at` on.
pub open spec fn stands_at(text: Seq<char>, word: Seq<char>, at: int) -> bool {
    0 <= at && at + word.len() <= text.len() && text.subrange(at, at + word.len()) == word
}

/// Whether `word` stands in `text` from position `at` on, outside all parentheses.
pub open spec fn outermost(text: Seq<char>, word: Seq<char>, at: int) -> bool {
    stands_at(text, word, at) && grouping::depth(text.take(at)) == 0
}

/// Whether `at` is the last position at which `word` stands in `text` outside all parentheses.
pub open spec fn last_outermost(text: Seq<char>, word: Seq<char>, at: int) -> bool {
    outermost(text, word, at) && forall|later: int|
        at < later ==> !#[trigger] outermost(text, word, later)
}

/// Whether `text` is one pair of parentheses and what stands between them.
pub open spec fn enclosed(text: Seq<char>) -> bool {
    &&& text.len() >= 2
    &&& text[0] == '('
    &&& text.last() == ')'
    &&& forall|i: int| 0 < i < text.len() ==> grouping::depth(#[trigger] text.take(i)) > 0
}

/// Whether the expression `text` holds, where `holds` says which conditions do. `OR` binds least,
/// then `AND`, then `NOT`; those of one kind are taken from the left; parentheses go before all.
#[verifier::opaque]
pub open spec fn value(text: Seq<char>, holds: spec_fn(Seq<char>) -> bool) -> bool
    decreases text.len(),
{
    if exists|at: int| last_outermost(text, or_word(), at) {
        let at = choose|at: int| last_outermost(text, or_word(), at);
        value(text.take(at), holds) || value(text.skip(at + 4), holds)
    } else if exists|at: int| last_outermost(text, and_word(), at) {
        let at = choose|at: int| last_outermost(text, and_word(), at);
        value(text.take(at), holds) && value(text.skip(at + 5), holds)
    } else if stands_at(text, not_word(), 0) {
        !value(text.skip(4), holds)
    } else if enclosed(text) {
        value(text.subrange(1, text.len() - 1), holds)
    } else {
        holds(text)
    }
}

/// `text` in parentheses.
spec fn group(text: Seq<char>) -> Seq<char> {
    seq!['('] + text + seq![')']
}

proof fn depth_of_plain_text(text: Seq<char>)
    requires
        forall|i: int| 0 <= i < text.len() ==> text[i] != '(' && text[i] != ')',
    ensures
        grouping::depth(text) == 0,
    decreases text.len(),
{
    if text.len() > 0 {
        depth_of_plain_text(text.drop_last());
    }
}

proof fn plain_words()
    ensures
        grouping::depth(or_word()) == 0,
        grouping::depth(and_word()) == 0,
        grouping::depth(not_word()) == 0,
        grouping::depth(Seq::<char>::empty()) == 0,
{
    depth_of_plain_text(or_word());
    depth_of_plain_text(and_word());
    depth_of_plain_text(not_word());
}

proof fn depth_inside_group(before: Seq<char>, text: Seq<char>, after: Seq<char>)
    requires
        grouping::depth(before) == 0,
        grouping::well_nested(text),
    ensures
        grouping::depth(before + group(text)) == 0,
        forall|i: int|
            before.len() < i <= before.len() + 1 + text.len() ==> grouping::depth(
                #[trigger] (before + group(text) + after).take(i),
            ) > 0,
{
    let whole = before + group(text) + after;
    let open = seq!['('];
    let close = seq![')'];
    assert(open.drop_last() =~= Seq::<char>::empty());
    assert(close.drop_last() =~= Seq::<char>::empty());
    assert(grouping::depth(Seq::<char>::empty()) == 0);
    assert(grouping::depth(open) == 1);
    assert(grouping::depth(close) == -1);
    grouping::depth_of_concatenation(open, text);
    grouping::depth_of_concatenation(open + text, close);
    grouping::depth_of_concatenation(before, group(text));
    assert forall|i: int| before.len() < i <= before.len() + 1 + text.len() implies grouping::depth(
        #[trigger] whole.take(i),
    ) > 0 by {
        let inner = text.take(i - before.len() - 1);
        assert(whole.take(i) =~= before + (open + inner));
        grouping::depth_of_concatenation(before, open + inner);
        grouping::depth_of_concatenation(open, inner);
    }
}

proof fn word_tells(text: Seq<char>, word: Seq<char>, at: int)
    requires
        stands_at(text, word, at),
    ensures
        forall|i: int| 0 <= i < word.len() ==> text[at + i] == #[trigger] word[i],
{
    assert forall|i: int| 0 <= i < word.len() implies text[at + i] == #[trigger] word[i] by {
        assert(text.subrange(at, at + word.len())[i] == text[at + i]);
    }
}

proof fn group_reads_as_its_content(text: Seq<char>, holds: spec_fn(Seq<char>) -> bool)
    requires
        grouping::well_nested(text),
    ensures
        value(group(text), holds) == value(text, holds),
{
    let whole = group(text);
    let none = Seq::<char>::empty();
    assert(none + whole + none =~= whole);
    depth_inside_group(none, text, none);
    assert forall|at: int| !outermost(whole, or_word(), at) by {
        if outermost(whole, or_word(), at) {
            word_tells(whole, or_word(), at);
            assert(or_word()[0] == ' ');
        }
    }
    assert forall|at: int| !outermost(whole, and_word(), at) by {
        if outermost(whole, and_word(), at) {
            word_tells(whole, and_word(), at);
            assert(and_word()[0] == ' ');
        }
    }
    if stands_at(whole, not_word(), 0) {
        word_tells(whole, not_word(), 0);
        assert(not_word()[0] == 'N');
    }
    assert(enclosed(whole));
    reveal(value);
    assert(whole.subrange(1, whole.len() - 1) =~= text);
}

proof fn disjunction_splits(text: Seq<char>, at: int, holds: spec_fn(Seq<char>) -> bool)
    requires
        last_outermost(text, or_word(), at),
    ensures
        value(text, holds) == (value(text.take(at), holds) || value(text.skip(at + 4), holds)),
{
    reveal(value);
    let chosen = choose|at: int| last_outermost(text, or_word(), at);
    assert(last_outermost(text, or_word(), chosen));
    assert(chosen == at);
}

proof fn conjunction_splits(text: Seq<char>, at: int, holds: spec_fn(Seq<char>) -> bool)
    requires
        forall|n: int| !#[trigger] outermost(text, or_word(), n),
        last_outermost(text, and_word(), at),
    ensures
        value(text, holds) == (value(text.take(at), holds) && value(text.skip(at + 5), holds)),
{
    reveal(value);
    let chosen = choose|at: int| last_outermost(text, and_word(), at);
    assert(last_outermost(text, and_word(), chosen));
    assert(chosen == at);
}

proof fn depth_around_the_word(left: Seq<char>, word: Seq<char>, right: Seq<char>)
    requires
        grouping::well_nested(left),
        grouping::well_nested(right),
        grouping::depth(word) == 0,
    ensures
        grouping::depth(group(left)) == 0,
        forall|i: int|
            0 < i < group(left).len() ==> grouping::depth(
                #[trigger] (group(left) + word + group(right)).take(i),
            ) > 0,
        forall|i: int|
            group(left).len() + word.len() < i < group(left).len() + word.len() + group(right).len()
                ==> grouping::depth(#[trigger] (group(left) + word + group(right)).take(i)) > 0,
{
    let whole = group(left) + word + group(right);
    let none = Seq::<char>::empty();
    let start = group(left) + word;
    let rest = word + group(right);
    assert(none + group(left) =~= group(left));
    assert(none + group(left) + rest =~= whole);
    assert(start + group(right) + none =~= whole);
    assert(grouping::depth(none) == 0);
    depth_inside_group(none, left, rest);
    grouping::depth_of_concatenation(group(left), word);
    depth_inside_group(start, right, none);
}

proof fn words_between_groups(
    left: Seq<char>,
    word: Seq<char>,
    right: Seq<char>,
    other: Seq<char>,
    at: int,
)
    requires
        grouping::well_nested(left),
        grouping::well_nested(right),
        word == and_word() || word == or_word(),
        other == and_word() || other == or_word(),
        outermost(group(left) + word + group(right), other, at),
    ensures
        at == group(left).len(),
        other == word,
{
    let whole = group(left) + word + group(right);
    let middle = group(left).len() as int;
    plain_words();
    depth_around_the_word(left, word, right);
    word_tells(whole, other, at);
    let first = other[0];
    let second = other[1];
    assert(whole[at + 0] == first && first == ' ');
    assert(whole[at + 1] == second && (second == 'A' || second == 'O'));
    if at == 0 {
        assert(whole[0] == '(');
    } else if at < middle {
        assert(grouping::depth(whole.take(at)) > 0);
    } else if at < middle + word.len() {
        assert(whole[at] == word[at - middle]);
        if at + 1 < middle + word.len() {
            assert(whole[at + 1] == word[at + 1 - middle]);
        } else {
            assert(whole[at + 1] == '(');
        }
    } else if at == middle + word.len() {
        assert(whole[at] == '(');
    } else {
        assert(grouping::depth(whole.take(at)) > 0);
    }
}

proof fn groups_meet_at_the_word(left: Seq<char>, word: Seq<char>, right: Seq<char>)
    requires
        grouping::well_nested(left),
        grouping::well_nested(right),
        word == and_word() || word == or_word(),
    ensures
        last_outermost(group(left) + word + group(right), word, group(left).len() as int),
        word == and_word() ==> forall|at: int|
            !#[trigger] outermost(group(left) + word + group(right), or_word(), at),
        (group(left) + word + group(right)).take(group(left).len() as int) == group(left),
        (group(left) + word + group(right)).skip((group(left).len() + word.len()) as int) == group(
            right,
        ),
{
    let whole = group(left) + word + group(right);
    let middle = group(left).len() as int;
    plain_words();
    depth_around_the_word(left, word, right);
    assert(whole.take(middle) =~= group(left));
    assert(whole.subrange(middle, middle + word.len()) =~= word);
    assert(whole.skip(middle + word.len()) =~= group(right));
    assert(outermost(whole, word, middle));
    assert forall|later: int| middle < later implies !#[trigger] outermost(whole, word, later) by {
        if outermost(whole, word, later) {
            words_between_groups(left, word, right, word, later);
        }
    }
    if word == and_word() {
        assert(or_word().len() != and_word().len());
        assert forall|at: int| !#[trigger] outermost(whole, or_word(), at) by {
            if outermost(whole, or_word(), at) {
                words_between_groups(left, word, right, or_word(), at);
            }
        }
    }
}

proof fn conjunction_reads_as_both(
    left: Seq<char>,
    right: Seq<char>,
    holds: spec_fn(Seq<char>) -> bool,
)
    requires
        grouping::well_nested(left),
        grouping::well_nested(right),
    ensures
        value(group(left) + and_word() + group(right), holds) == (value(left, holds) && value(
            right,
            holds,
        )),
{
    groups_meet_at_the_word(left, and_word(), right);
    conjunction_splits(
        group(left) + and_word() + group(right),
        group(left).len() as int,
        holds,
    );
    group_reads_as_its_content(left, holds);
    group_reads_as_its_content(right, holds);
}

proof fn disjunction_reads_as_either(
    left: Seq<char>,
    right: Seq<char>,
    holds: spec_fn(Seq<char>) -> bool,
)
    requires
        grouping::well_nested(left),
        grouping::well_nested(right),
    ensures
        value(group(left) + or_word() + group(right), holds) == (value(left, holds) || value(
            right,
            holds,
        )),
{
    groups_meet_at_the_word(left, or_word(), right);
    disjunction_splits(
        group(left) + or_word() + group(right),
        group(left).len() as int,
        holds,
    );
    group_reads_as_its_content(left, holds);
    group_reads_as_its_content(right, holds);
}

proof fn negation_reads_as_the_opposite(text: Seq<char>, holds: spec_fn(Seq<char>) -> bool)
    requires
        grouping::well_nested(text),
    ensures
        value(not_word() + group(text), holds) == !value(text, holds),
{
    let whole = not_word() + group(text);
    let none = Seq::<char>::empty();
    plain_words();
    depth_inside_group(not_word(), text, none);
    assert(not_word() + group(text) + none =~= whole);
    assert forall|at: int| outermost(whole, or_word(), at) implies false by {
        word_tells(whole, or_word(), at);
        assert(whole[at] == or_word()[0] && whole[at + 1] == or_word()[1]);
    }
    assert forall|at: int| outermost(whole, and_word(), at) implies false by {
        word_tells(whole, and_word(), at);
        assert(whole[at] == and_word()[0] && whole[at + 1] == and_word()[1]);
    }
    assert(whole.subrange(0, 4) =~= not_word());
    assert(whole.skip(4) =~= group(text));
    group_reads_as_its_content(text, holds);
    reveal(value);
}

proof fn combinations_spelled_out(left: Seq<char>, right: Seq<char>)
    ensures
        "("@ + left + ") AND ("@ + right + ")"@ == group(left) + and_word() + group(right),
        "("@ + left + ") OR ("@ + right + ")"@ == group(left) + or_word() + group(right),
        "NOT ("@ + left + ")"@ == not_word() + group(left),
{
    reveal_strlit("(");
    reveal_strlit(")");
    reveal_strlit(") AND (");
    reveal_strlit(") OR (");
    reveal_strlit("NOT (");
    assert("("@ + left + ") AND ("@ + right + ")"@ =~= group(left) + and_word() + group(right));
    assert("("@ + left + ") OR ("@ + right + ")"@ =~= group(left) + or_word() + group(right));
    assert("NOT ("@ + left + ")"@ =~= not_word() + group(left));
}

/// A combined filter holds exactly where its operands make it hold, whatever they are made of:
/// `and` where both do, `or` where at least one does, `not` where its operand does not.
pub proof fn combined_filters_hold_as_their_operands_do(
    left: SurrealSearchFilter,
    right: SurrealSearchFilter,
    combined: SurrealSearchFilter,
    left_text: String,
    right_text: String,
    text: String,
    holds: spec_fn(Seq<char>) -> bool,
)
    requires
        call_ensures(SurrealSearchFilter::inner, (left,), left_text),
        call_ensures(SurrealSearchFilter::inner, (right,), right_text),
        call_ensures(SurrealSearchFilter::inner, (combined,), text),
        grouping::well_nested(left_text@),
        grouping::well_nested(right_text@),
    ensures
        call_ensures(SurrealSearchFilter::and, (left, right), combined) ==> value(text@, holds)
            == (value(left_text@, holds) && value(right_text@, holds)),
        call_ensures(SurrealSearchFilter::or, (left, right), combined) ==> value(text@, holds) == (
        value(left_text@, holds) || value(right_text@, holds)),
        call_ensures(SurrealSearchFilter::not, (left,), combined) ==> value(text@, holds)
            == !value(left_text@, holds),
{
    let l = left_text@;
    let r = right_text@;
    filters::combined_filters_stand_in_parentheses(
        left,
        right,
        combined,
        left_text,
        right_text,
        text,
    );
    conjunction_reads_as_both(l, r, holds);
    disjunction_reads_as_either(l, r, holds);
    negation_reads_as_the_opposite(l, holds);
    combinations_spelled_out(l, r);
}

spec fn nearest_condition(count: Seq<char>) -> Seq<char> {
    "embedding <|"@ + count + ","@ + count + "|> $vec"@
}

proof fn nearest_condition_is_plain(count: Seq<char>)
    requires
        forall|i: int| 0 <= i < count.len() ==> '0' <= #[trigger] count[i] <= '9',
    ensures
        nearest_condition(count).len() > 0,
        nearest_condition(count)[0] == 'e',
        forall|i: int|
            0 <= i < nearest_condition(count).len() ==> {
                &&& #[trigger] nearest_condition(count)[i] != '('
                &&& nearest_condition(count)[i] != ')'
                &&& nearest_condition(count)[i] == ' ' ==> i + 1 < nearest_condition(count).len()
                    && nearest_condition(count)[i + 1] != 'O' && nearest_condition(count)[i + 1]
                    != 'A'
            },
{
    let text = nearest_condition(count);
    let n = count.len() as int;
    reveal_strlit("embedding <|");
    reveal_strlit(",");
    reveal_strlit("|> $vec");
    assert forall|i: int| 0 <= i < text.len() implies {
        &&& #[trigger] text[i] != '('
        &&& text[i] != ')'
        &&& text[i] == ' ' ==> i + 1 < text.len() && text[i + 1] != 'O' && text[i + 1] != 'A'
    } by {
        if i < 12 {
            assert(text[i] == "embedding <|"@[i]);
            if i == 9 {
                assert(text[10] == "embedding <|"@[10]);
            }
        } else if i < 12 + n {
            assert(text[i] == count[i - 12]);
        } else if i == 12 + n {
            assert(text[i] == ","@[0]);
        } else if i < 13 + 2 * n {
            assert(text[i] == count[i - 13 - n]);
        } else {
            let k = i - 13 - 2 * n;
            assert(text[i] == "|> $vec"@[k]);
            if k == 2 {
                assert(text[i + 1] == "|> $vec"@[3]);
            }
        }
    }
}

proof fn plain_condition_reads_as_itself(text: Seq<char>, holds: spec_fn(Seq<char>) -> bool)
    requires
        text.len() > 0,
        text[0] != 'N' && text[0] != '(',
        forall|i: int|
            0 <= i < text.len() && #[trigger] text[i] == ' ' ==> i + 1 < text.len() && text[i + 1]
                != 'O' && text[i + 1] != 'A',
    ensures
        value(text, holds) == holds(text),
{
    assert forall|at: int| outermost(text, or_word(), at) implies false by {
        word_tells(text, or_word(), at);
        assert(or_word()[0] == ' ' && or_word()[1] == 'O');
        assert(text[at] == ' ' && text[at + 1] == 'O');
    }
    assert forall|at: int| outermost(text, and_word(), at) implies false by {
        word_tells(text, and_word(), at);
        assert(and_word()[0] == ' ' && and_word()[1] == 'A');
        assert(text[at] == ' ' && text[at + 1] == 'A');
    }
    if stands_at(text, not_word(), 0) {
        word_tells(text, not_word(), 0);
        assert(not_word()[0] == 'N');
    }
    reveal(value);
}

proof fn no_word_behind_the_filter(filter: Seq<char>, plain: Seq<char>, word: Seq<char>, at: int)
    requires
        word == and_word() || word == or_word(),
        plain.len() > 0,
        plain[0] != 'O' && plain[0] != 'A',
        forall|i: int|
            0 <= i < plain.len() && #[trigger] plain[i] == ' ' ==> i + 1 < plain.len() && plain[i
                + 1] != 'O' && plain[i + 1] != 'A',
        filter.len() < at,
    ensures
        !stands_at(filter + and_word() + plain, word, at),
{
    let whole = filter + and_word() + plain;
    let middle = filter.len() as int;
    if stands_at(whole, word, at) {
        word_tells(whole, word, at);
        let first = word[0];
        let second = word[1];
        assert(whole[at + 0] == first && first == ' ');
        assert(whole[at + 1] == second && (second == 'A' || second == 'O'));
        if at < middle + 5 {
            assert(whole[at] == and_word()[at - middle]);
            assert(at == middle + 4);
            assert(whole[at + 1] == plain[0]);
        } else {
            assert(whole[at] == plain[at - middle - 5]);
            assert(whole[at + 1] == plain[at - middle - 4]);
        }
    }
}

proof fn no_disjunction_up_to_the_filter(filter: Seq<char>, plain: Seq<char>, at: int)
    requires
        forall|n: int| !#[trigger] outermost(filter.push(' '), or_word(), n),
        at <= filter.len(),
    ensures
        !outermost(filter + and_word() + plain, or_word(), at),
{
    let whole = filter + and_word() + plain;
    let middle = filter.len() as int;
    if outermost(whole, or_word(), at) {
        word_tells(whole, or_word(), at);
        if at + 4 <= middle + 1 {
            assert(filter.push(' ').subrange(at, at + 4) =~= whole.subrange(at, at + 4));
            assert(filter.push(' ').take(at) =~= whole.take(at));
            assert(outermost(filter.push(' '), or_word(), at));
        } else {
            let k = middle - at;
            assert(or_word()[k] == whole[at + k] && whole[middle] == and_word()[0]);
            assert(k == 0);
            assert(or_word()[1] == whole[at + 1] && whole[middle + 1] == and_word()[1]);
        }
    }
}

proof fn filter_and_plain_condition_read_as_both(
    filter: Seq<char>,
    plain: Seq<char>,
    holds: spec_fn(Seq<char>) -> bool,
)
    requires
        grouping::well_nested(filter),
        forall|at: int| !#[trigger] outermost(filter.push(' '), or_word(), at),
        plain.len() > 0,
        plain[0] != 'N' && plain[0] != 'O' && plain[0] != 'A' && plain[0] != '(',
        forall|i: int|
            0 <= i < plain.len() && #[trigger] plain[i] == ' ' ==> i + 1 < plain.len() && plain[i
                + 1] != 'O' && plain[i + 1] != 'A',
    ensures
        value(filter + and_word() + plain, holds) == (value(filter, holds) && holds(plain)),
{
    let whole = filter + and_word() + plain;
    let middle = filter.len() as int;
    assert forall|at: int| !#[trigger] outermost(whole, or_word(), at) by {
        if at <= middle {
            no_disjunction_up_to_the_filter(filter, plain, at);
        } else {
            no_word_behind_the_filter(filter, plain, or_word(), at);
        }
    }
    assert forall|later: int| middle < later implies !#[trigger] outermost(
        whole,
        and_word(),
        later,
    ) by {
        no_word_behind_the_filter(filter, plain, and_word(), later);
    }
    assert(whole.subrange(middle, middle + 5) =~= and_word());
    assert(whole.take(middle) =~= filter);
    assert(whole.skip(middle + 5) =~= plain);
    assert(outermost(whole, and_word(), middle));
    conjunction_splits(whole, middle, holds);
    plain_condition_reads_as_itself(plain, holds);
}

proof fn middle_is_unique(before: Seq<char>, left: Seq<char>, right: Seq<char>, after: Seq<char>)
    requires
        before + left + after == before + right + after,
    ensures
        left == right,
{
    assert((before + left + after).len() == before.len() + left.len() + after.len());
    assert((before + right + after).len() == before.len() + right.len() + after.len());
    assert forall|i: int| 0 <= i < left.len() implies left[i] == right[i] by {
        assert((before + left + after)[before.len() + i] == left[i]);
        assert((before + right + after)[before.len() + i] == right[i]);
    }
    assert(left =~= right);
}

/// A search over the index finds, of the nearest records, those that its filter allows: the
/// condition between `WHERE` and `ORDER BY` holds exactly where the filter and the nearest-record
/// condition both do. The filter is one without an `OR` outside its parentheses.
pub proof fn filtered_searches_find_what_the_filter_allows(
    mode: SurrealDistanceFunction,
    with_document: bool,
    samples: u64,
    filter: &str,
    count: String,
    text: String,
    condition: Seq<char>,
    holds: spec_fn(Seq<char>) -> bool,
)
    requires
        !(mode is Jaccard),
        call_ensures(decimal::decimal_text, (samples,), count),
        call_ensures(statement::search_text, (mode, with_document, samples, filter, false), text),
        text@ == "SELECT "@ + (if with_document {
            "id, document"@
        } else {
            "id"@
        }) + ", vector::distance::knn() AS distance FROM type::table($tablename) WHERE "@
            + condition + " ORDER BY distance ASC LIMIT "@ + count@,
        filter@ != ""@ && filter@ != "true"@,
        grouping::well_nested(filter@),
        forall|at: int| !#[trigger] outermost(filter@.push(' '), or_word(), at),
    ensures
        value(condition, holds) == (value(filter@, holds) && holds(
            "embedding <|"@ + count@ + ","@ + count@ + "|> $vec"@,
        )),
{
    let before = "SELECT "@ + (if with_document {
        "id, document"@
    } else {
        "id"@
    }) + ", vector::distance::knn() AS distance FROM type::table($tablename) WHERE "@;
    let order = " ORDER BY distance ASC LIMIT "@;
    let nearest = nearest_condition(count@);
    let written = filter@ + " AND embedding <|"@ + count@ + ","@ + count@ + "|> $vec"@;
    statements::indexed_searches_read_nearest_records(
        mode,
        with_document,
        samples,
        filter,
        count,
        text,
    );
    assert(before + condition + (order + count@) =~= before + condition + order + count@);
    assert(before + written + (order + count@) =~= before + written + order + count@);
    middle_is_unique(before, condition, written, order + count@);
    reveal_strlit("embedding <|");
    reveal_strlit(" AND embedding <|");
    assert(" AND embedding <|"@ =~= and_word() + "embedding <|"@);
    assert(written =~= filter@ + and_word() + nearest);
    decimal::numeral_has_digits_only(samples as nat);
    nearest_condition_is_plain(count@);
    filter_and_plain_condition_read_as_both(filter@, nearest, holds);
}

} // verus!
