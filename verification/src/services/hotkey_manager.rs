//! The grammar of hotkey strings: tokens joined by `+`, the last of which is
//! the key and the others the modifiers.

use vstd::prelude::*;
use crate::models::config::{
    has_doubled_separator, is_well_formed_hotkey, HotkeyConfig, HotkeyError, HotkeyInfo,
    HOTKEY_SEPARATOR,
};
use crate::text::chars_of;

verus! {

/// Whether `token` can stand between separators: it is not empty and holds no separator.
pub open spec fn is_token(token: Seq<char>) -> bool {
    &&& token.len() > 0
    &&& forall|i: int| 0 <= i < token.len() ==> token[i] != '+'
}

/// The tokens, written one after the other with a separator between each two.
pub open spec fn joined(tokens: Seq<Seq<char>>) -> Seq<char>
    decreases tokens.len(),
{
    if tokens.len() == 0 {
        Seq::empty()
    } else if tokens.len() == 1 {
        tokens[0]
    } else {
        joined(tokens.drop_last()) + seq!['+'] + tokens.last()
    }
}

/// The texts of a list of strings.
pub open spec fn texts(strings: Seq<String>) -> Seq<Seq<char>> {
    Seq::new(strings.len(), |i: int| strings[i]@)
}

impl HotkeyInfo {
    /// The tokens of the hotkey in the order written: the modifiers, then the key.
    pub open spec fn tokens(self) -> Seq<Seq<char>> {
        texts(self.modifiers@).push(self.key@)
    }
}

/// Whether `info` is `keys` taken apart: its tokens, joined, are `keys`, and
/// each of them is a token.
pub open spec fn is_parse_of(info: HotkeyInfo, keys: Seq<char>) -> bool {
    &&& joined(info.tokens()) == keys
    &&& are_tokens(info.tokens())
}

/// Adding a token behind a list of tokens adds a separator and the token to
/// what the list joins to.
proof fn lemma_joined_push(tokens: Seq<Seq<char>>, token: Seq<char>)
    ensures
        joined(tokens.push(token)) == if tokens.len() == 0 {
            token
        } else {
            joined(tokens) + seq!['+'] + token
        },
{
    let longer = tokens.push(token);
    assert(longer.drop_last() =~= tokens);
    assert(longer.last() == token);
}

/// Checks the form of a hotkey string: one or more non-empty tokens joined by `+`.
pub fn validate_hotkey(keys: &str) -> (result: Result<(), HotkeyError>)
    ensures
        result is Ok <==> is_well_formed_hotkey(keys@),
        result is Err ==> result->Err_0 is InvalidFormat,
{
    if HotkeyConfig::is_valid_hotkey(keys) {
        Ok(())
    } else {
        Err(HotkeyError::InvalidFormat(keys.to_owned()))
    }
}

/// Takes a hotkey string apart. A string of the right form gives its tokens,
/// the last as the key and those before it as the modifiers; any other
/// string is declined as `InvalidFormat`.
pub fn parse_hotkey(keys: &str) -> (result: Result<HotkeyInfo, HotkeyError>)
    ensures
        result is Ok <==> is_well_formed_hotkey(keys@),
        result is Err ==> result->Err_0 is InvalidFormat,
        result is Ok ==> is_parse_of(result->Ok_0, keys@),
{
    if !HotkeyConfig::is_valid_hotkey(keys) {
        return Err(HotkeyError::InvalidFormat(keys.to_owned()));
    }
    let chars = chars_of(keys);
    let n = chars.len();
    let mut modifiers: Vec<String> = Vec::new();
    let mut start: usize = 0;
    let mut i: usize = 0;
    while i < n
        invariant
            chars@ == keys@,
            n == keys@.len(),
            is_well_formed_hotkey(keys@),
            start <= i <= n,
            forall|j: int| start <= j < i ==> keys@[j] != '+',
            start == 0 || keys@[start - 1] == '+',
            modifiers@.len() == 0 <==> start == 0,
            modifiers@.len() > 0 ==> joined(texts(modifiers@)) + seq!['+'] == keys@.subrange(
                0,
                start as int,
            ),
            forall|k: int| 0 <= k < modifiers@.len() ==> is_token(#[trigger] texts(modifiers@)[k]),
        decreases n - i,
    {
        if chars[i] == HOTKEY_SEPARATOR {
            assert(start < i) by {
                if start == i {
                    if start > 0 {
                        assert(keys@[(start - 1) + 1] == '+');
                        assert(has_doubled_separator(keys@));
                    }
                }
            }
            let token = keys.substring_char(start, i).to_owned();
            proof {
                let before = texts(modifiers@);
                lemma_joined_push(before, token@);
                assert(texts(modifiers@.push(token)) =~= before.push(token@));
                assert(is_token(token@));
                if before.len() == 0 {
                    assert(token@ + seq!['+'] =~= keys@.subrange(0, i + 1));
                } else {
                    assert(keys@.subrange(0, start as int) + token@ + seq!['+'] =~= keys@.subrange(
                        0,
                        i + 1,
                    ));
                }
            }
            modifiers.push(token);
            start = i + 1;
        }
        i += 1;
    }
    assert(start < n);
    let key = keys.substring_char(start, n).to_owned();
    let info = HotkeyInfo { modifiers, key };
    proof {
        let before = texts(info.modifiers@);
        lemma_joined_push(before, info.key@);
        assert(is_token(info.key@));
        if before.len() == 0 {
            assert(info.key@ =~= keys@);
        } else {
            assert(keys@.subrange(0, start as int) + info.key@ =~= keys@);
        }
        assert forall|k: int| 0 <= k < info.tokens().len() implies is_token(
            #[trigger] info.tokens()[k],
        ) by {
            if k < before.len() {
                assert(info.tokens()[k] == before[k]);
            }
        }
    }
    Ok(info)
}

/// Whether each member of `tokens` is a token.
pub open spec fn are_tokens(tokens: Seq<Seq<char>>) -> bool {
    forall|i: int| 0 <= i < tokens.len() ==> is_token(#[trigger] tokens[i])
}

/// A hotkey string can be taken apart in one way only: two lists of tokens
/// that join to the same string are the same list.
pub proof fn law_tokens_are_unique(a: Seq<Seq<char>>, b: Seq<Seq<char>>)
    requires
        a.len() > 0,
        b.len() > 0,
        are_tokens(a),
        are_tokens(b),
        joined(a) == joined(b),
    ensures
        a == b,
    decreases a.len(),
{
    let s = joined(a);
    let la = a.last();
    let lb = b.last();
    assert(is_token(la) && is_token(lb));
    if a.len() == 1 && b.len() == 1 {
        assert(a =~= b);
    } else if a.len() == 1 {
        let head = joined(b.drop_last());
        assert(s =~= head + seq!['+'] + lb);
        assert(s[head.len() as int] == '+');
        assert(false);
    } else if b.len() == 1 {
        let head = joined(a.drop_last());
        assert(s =~= head + seq!['+'] + la);
        assert(s[head.len() as int] == '+');
        assert(false);
    } else {
        let ha = joined(a.drop_last());
        let hb = joined(b.drop_last());
        assert(s =~= ha + seq!['+'] + la);
        assert(s =~= hb + seq!['+'] + lb);
        assert(s.len() == ha.len() + 1 + la.len());
        assert(s.len() == hb.len() + 1 + lb.len());
        if la.len() < lb.len() {
            let k = ha.len() as int;
            assert(s[k] == '+');
            assert(s[k] == lb[k - hb.len() - 1]);
            assert(false);
        }
        if lb.len() < la.len() {
            let k = hb.len() as int;
            assert(s[k] == '+');
            assert(s[k] == la[k - ha.len() - 1]);
            assert(false);
        }
        assert(ha =~= s.subrange(0, ha.len() as int));
        assert(hb =~= s.subrange(0, hb.len() as int));
        assert(la =~= s.subrange(ha.len() as int + 1, s.len() as int));
        assert(lb =~= s.subrange(hb.len() as int + 1, s.len() as int));
        assert forall|i: int| 0 <= i < a.drop_last().len() implies is_token(
            #[trigger] a.drop_last()[i],
        ) by {
            assert(a.drop_last()[i] == a[i]);
        }
        assert forall|i: int| 0 <= i < b.drop_last().len() implies is_token(
            #[trigger] b.drop_last()[i],
        ) by {
            assert(b.drop_last()[i] == b[i]);
        }
        law_tokens_are_unique(a.drop_last(), b.drop_last());
        assert(a =~= a.drop_last().push(la));
        assert(b =~= b.drop_last().push(lb));
    }
}

/// Taking a hotkey string apart gives one answer: whatever is a parse of
/// `keys` has the same modifiers and the same key.
pub proof fn law_parse_is_unique(first: HotkeyInfo, second: HotkeyInfo, keys: Seq<char>)
    requires
        is_parse_of(first, keys),
        is_parse_of(second, keys),
    ensures
        texts(first.modifiers@) == texts(second.modifiers@),
        first.key@ == second.key@,
{
    law_tokens_are_unique(first.tokens(), second.tokens());
    assert(first.tokens().last() == first.key@);
    assert(second.tokens().last() == second.key@);
    assert(texts(first.modifiers@) =~= first.tokens().drop_last());
    assert(texts(second.modifiers@) =~= second.tokens().drop_last());
}

/// A string can be taken apart exactly if it is well formed: the tokens of a
/// parse join to a string without empty tokens, and so without a separator
/// at either end and without two side by side.
pub proof fn law_joined_tokens_are_well_formed(tokens: Seq<Seq<char>>)
    requires
        tokens.len() > 0,
        are_tokens(tokens),
    ensures
        is_well_formed_hotkey(joined(tokens)),
        joined(tokens).len() >= tokens.last().len(),
    decreases tokens.len(),
{
    let s = joined(tokens);
    let last = tokens.last();
    assert(is_token(last));
    if tokens.len() == 1 {
        assert(!has_doubled_separator(s));
    } else {
        let front = tokens.drop_last();
        assert forall|i: int| 0 <= i < front.len() implies is_token(#[trigger] front[i]) by {
            assert(front[i] == tokens[i]);
        }
        law_joined_tokens_are_well_formed(front);
        let head = joined(front);
        assert(s =~= head + seq!['+'] + last);
        assert(s[0] == head[0]);
        assert(s[s.len() - 1] == last[last.len() - 1]);
        assert forall|i: int| 0 <= i < s.len() - 1 implies !(s[i] == '+' && #[trigger] s[i + 1]
            == '+') by {
            if i + 1 < head.len() {
                assert(s[i] == head[i] && s[i + 1] == head[i + 1]);
            } else if i + 1 == head.len() {
                assert(s[i] == head[head.len() - 1]);
            } else if i == head.len() {
                assert(s[i + 1] == last[0]);
            } else {
                assert(s[i] == last[i - head.len() - 1]);
            }
        }
    }
}

} // verus!
