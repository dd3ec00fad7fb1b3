//! How filter expressions nest: combining well-nested expressions gives a well-nested one, and
//! no combination is mistaken for the absence of a filter.

use vstd::prelude::*;

use crate::filter;
use crate::statement;

verus! {

/// What one character adds to the nesting depth.
pub open spec fn step(c: char) -> int {
    if c == '(' {
        1
    } else if c == ')' {
        -1
    } else {
        0
    }
}

/// The nesting depth at the end of a text.
pub open spec fn depth(text: Seq<char>) -> int
    decreases text.len(),
{
    if text.len() == 0 {
        0
    } else {
        depth(text.drop_last()) + step(text.last())
    }
}

/// Whether every parenthesis of a text has its partner: no prefix closes more than it opens, and
/// the whole closes as many as it opens.
pub open spec fn well_nested(text: Seq<char>) -> bool {
    &&& depth(text) == 0
    &&& forall|i: int| 0 <= i <= text.len() ==> depth(#[trigger] text.take(i)) >= 0
}

/// The depth at the end of two texts, one after the other, is the sum of theirs.
pub proof fn depth_of_concatenation(left: Seq<char>, right: Seq<char>)
    ensures
        depth(left + right) == depth(left) + depth(right),
    decreases right.len(),
{
    let whole = left + right;
    if right.len() == 0 {
        assert(whole =~= left);
    } else {
        assert(whole.drop_last() =~= left + right.drop_last());
        depth_of_concatenation(left, right.drop_last());
    }
}

proof fn concatenation_is_well_nested(left: Seq<char>, right: Seq<char>)
    requires
        well_nested(left),
        well_nested(right),
    ensures
        well_nested(left + right),
{
    let whole = left + right;
    depth_of_concatenation(left, right);
    assert forall|i: int| 0 <= i <= whole.len() implies depth(#[trigger] whole.take(i)) >= 0 by {
        if i <= left.len() {
            assert(whole.take(i) =~= left.take(i));
        } else {
            assert(whole.take(i) =~= left + right.take(i - left.len()));
            depth_of_concatenation(left, right.take(i - left.len()));
        }
    }
}

proof fn plain_text_is_well_nested(text: Seq<char>)
    requires
        forall|i: int| 0 <= i < text.len() ==> step(text[i]) == 0,
    ensures
        well_nested(text),
    decreases text.len(),
{
    if text.len() > 0 {
        plain_text_is_well_nested(text.drop_last());
    }
    assert forall|i: int| 0 <= i <= text.len() implies depth(#[trigger] text.take(i)) >= 0 by {
        if i == text.len() {
            assert(text.take(i) =~= text);
        } else {
            assert(text.take(i) =~= text.drop_last().take(i));
        }
    }
}

proof fn group_is_well_nested(expression: Seq<char>)
    requires
        well_nested(expression),
    ensures
        well_nested(filter::group(expression)),
{
    reveal_strlit("(");
    reveal_strlit(")");
    let open = "("@;
    let close = ")"@;
    assert(open.drop_last() =~= Seq::<char>::empty());
    assert(close.drop_last() =~= Seq::<char>::empty());
    assert(depth(open.drop_last()) == 0 && depth(close.drop_last()) == 0);
    assert(depth(open) == 1);
    assert(depth(close) == -1);
    let whole = filter::group(expression);
    depth_of_concatenation(open, expression);
    depth_of_concatenation(open + expression, close);
    assert forall|i: int| 0 <= i <= whole.len() implies depth(#[trigger] whole.take(i)) >= 0 by {
        if i == 0 {
            assert(whole.take(i) =~= Seq::<char>::empty());
        } else if i <= expression.len() + 1 {
            assert(whole.take(i) =~= open + expression.take(i - 1));
            depth_of_concatenation(open, expression.take(i - 1));
        } else {
            assert(whole.take(i) =~= whole);
        }
    }
}

/// Conjunction, disjunction and negation of well-nested expressions are well nested.
pub proof fn combinations_are_well_nested(left: Seq<char>, right: Seq<char>)
    requires
        well_nested(left),
        well_nested(right),
    ensures
        well_nested(filter::conjunction(left, right)),
        well_nested(filter::disjunction(left, right)),
        well_nested(filter::negation(left)),
{
    reveal_strlit(" AND ");
    reveal_strlit(" OR ");
    reveal_strlit("NOT ");
    group_is_well_nested(left);
    group_is_well_nested(right);
    plain_text_is_well_nested(" AND "@);
    plain_text_is_well_nested(" OR "@);
    plain_text_is_well_nested("NOT "@);
    concatenation_is_well_nested(filter::group(left), " AND "@);
    concatenation_is_well_nested(filter::group(left) + " AND "@, filter::group(right));
    concatenation_is_well_nested(filter::group(left), " OR "@);
    concatenation_is_well_nested(filter::group(left) + " OR "@, filter::group(right));
    concatenation_is_well_nested("NOT "@, filter::group(left));
}

/// A condition is well nested where its key, its operator and its operand are.
pub proof fn conditions_are_well_nested(key: Seq<char>, operator: Seq<char>, operand: Seq<char>)
    requires
        well_nested(key),
        well_nested(operator),
        well_nested(operand),
    ensures
        well_nested(filter::infix(key, operator, operand)),
{
    reveal_strlit(" ");
    plain_text_is_well_nested(" "@);
    concatenation_is_well_nested(key, " "@);
    concatenation_is_well_nested(key + " "@, operator);
    concatenation_is_well_nested(key + " "@ + operator, " "@);
    concatenation_is_well_nested(key + " "@ + operator + " "@, operand);
}

/// A search never drops a filter built from conditions, conjunctions, disjunctions and
/// negations: none of them reads as the absent filter.
pub proof fn built_filters_are_never_dropped(
    key: Seq<char>,
    operator: Seq<char>,
    operand: Seq<char>,
    left: Seq<char>,
    right: Seq<char>,
)
    ensures
        !statement::unfiltered(filter::infix(key, operator, operand)),
        !statement::unfiltered(filter::conjunction(left, right)),
        !statement::unfiltered(filter::disjunction(left, right)),
        !statement::unfiltered(filter::negation(left)),
{
    reveal_strlit("");
    reveal_strlit("true");
    reveal_strlit(" ");
    reveal_strlit("(");
    reveal_strlit("NOT ");
    let constant = "true"@;
    assert(constant.len() == 4 && constant[0] == 't' && constant[1] == 'r' && constant[2] == 'u'
        && constant[3] == 'e');
    assert(""@.len() == 0);
    let condition = filter::infix(key, operator, operand);
    assert(condition.len() > key.len() && condition[key.len() as int] == ' ');
    assert(constant != condition);
    assert(filter::conjunction(left, right).len() > 0);
    assert(filter::disjunction(left, right).len() > 0);
    assert(filter::conjunction(left, right)[0] == '(');
    assert(filter::disjunction(left, right)[0] == '(');
    assert(filter::negation(left)[0] == 'N');
}

} // verus!
