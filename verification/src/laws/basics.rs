//! What holds of codes, numbers, texts and properties.
use crate::codes::{as_signed, as_unsigned, build_sys_flag, ResponseCode};
use crate::command::RemotingCommand;
use crate::message::MessageExt;
use crate::properties::PropertyMap;
use crate::text::{decimal_text, find_char, signed_decimal_text, split_text};
use crate::text::{lemma_prefix_len, split, texts};
use vstd::prelude::*;

verus! {

/// Eight codes are told apart, each from all others.
pub proof fn lemma_codes_told_apart(code: i32, r: ResponseCode)
    requires
        call_ensures(ResponseCode::from_code, (code,), r),
    ensures
        r == ResponseCode::Success <==> code == 0,
        r == ResponseCode::FlushDiskTimeout <==> code == 10,
        r == ResponseCode::SlaveNotAvailable <==> code == 11,
        r == ResponseCode::FlushSlaveTimeout <==> code == 12,
        r == ResponseCode::TopicNotExist <==> code == 17,
        r == ResponseCode::PullNotFound <==> code == 19,
        r == ResponseCode::PullRetryImmediately <==> code == 20,
        r == ResponseCode::PullOffsetMoved <==> code == 21,
{
}

/// A response is a success on one code alone.
pub proof fn lemma_one_success(response: &RemotingCommand, r: bool)
    requires
        call_ensures(RemotingCommand::is_success, (response,), r),
    ensures
        r <==> response.code == 0,
{
}

/// The remark of a response is handed out as it is; without one the text is empty.
pub proof fn lemma_remark(response: &RemotingCommand, r: String)
    requires
        call_ensures(RemotingCommand::remark_or_empty, (response,), r),
    ensures
        response.remark is Some ==> r@ == response.remark->0@,
        response.remark is None ==> r@.len() == 0,
{
}

/// Each flag of a pull has a bit of its own, and no other bit is set.
pub proof fn lemma_flag_bits(
    commit_offset: bool,
    suspend: bool,
    subscription: bool,
    class_filter: bool,
    r: i32,
)
    requires
        call_ensures(build_sys_flag, (commit_offset, suspend, subscription, class_filter), r),
    ensures
        0 <= r < 16,
        r % 2 == 1 <==> commit_offset,
        (r / 2) % 2 == 1 <==> suspend,
        (r / 4) % 2 == 1 <==> subscription,
        r / 8 == 1 <==> class_filter,
{
}

/// A number that is not negative reads the same without its sign; a negative one lies
/// as far below the top of the range as it lies below zero.
pub proof fn lemma_unsigned(n: i64, r: u64)
    requires
        call_ensures(as_unsigned, (n,), r),
    ensures
        n >= 0 ==> r == n,
        n < 0 ==> r - 0x1_0000_0000_0000_0000 == n,
{
}

/// Reading a number without its sign and then with it gives the number back, and so
/// does the other order.
pub proof fn lemma_signs_round_trip(n: i64, u: u64, back: i64, m: u64, s: i64, again: u64)
    requires
        call_ensures(as_unsigned, (n,), u),
        call_ensures(as_signed, (u,), back),
        call_ensures(as_signed, (m,), s),
        call_ensures(as_unsigned, (s,), again),
    ensures
        back == n,
        again == m,
{
}

/// A number below ten is spelled by one digit; a larger one by the digits of its tenth
/// part and one digit more.
pub proof fn lemma_decimal_digits(n: u64, r: String, tenth: String)
    requires
        call_ensures(decimal_text, (n,), r),
        call_ensures(decimal_text, ((n / 10) as u64,), tenth),
    ensures
        r@.last() as int == '0' as int + n % 10,
        n < 10 ==> r@.len() == 1,
        n >= 10 ==> r@.drop_last() == tenth@,
{
    if n >= 10 {
        assert(r@.drop_last() =~= tenth@);
    }
}

/// A negative number is spelled by a minus sign and its magnitude, any other number
/// as one without a sign.
pub proof fn lemma_signed_digits(n: i32, r: String, magnitude: String)
    requires
        call_ensures(signed_decimal_text, (n,), r),
        call_ensures(
            decimal_text,
            (if n < 0 {
                (-n) as u64
            } else {
                n as u64
            },),
            magnitude,
        ),
    ensures
        n >= 0 ==> r@ == magnitude@,
        n < 0 ==> r@ == seq!['-'] + magnitude@,
{
}

/// A search stops at the first place where the character stands, or at the end.
pub proof fn lemma_first_place(s: &str, c: char, r: (usize, usize))
    requires
        call_ensures(find_char, (s, c), r),
    ensures
        r.1 == s@.len(),
        r.0 <= r.1,
        r.0 < r.1 ==> s@[r.0 as int] == c,
        forall|j: int| 0 <= j < r.0 ==> s@[j] != c,
{
    lemma_prefix_len(s@, c, r.0 as nat);
}

/// A text without a separator is one piece.
pub proof fn lemma_one_piece(s: &str, sep: char, r: Vec<String>)
    requires
        call_ensures(split_text, (s, sep), r),
        !s@.contains(sep),
    ensures
        r@.len() == 1,
        r@[0]@ == s@,
{
    lemma_prefix_len(s@, sep, s@.len());
    assert(texts(r@) == split(s@, sep));
    assert(texts(r@)[0] == r@[0]@);
}

/// What stands before the first separator is the first piece; the pieces of what
/// stands behind it follow.
pub proof fn lemma_first_piece(
    s: &str,
    sep: char,
    r: Vec<String>,
    first: Seq<char>,
    rest: &str,
    others: Vec<String>,
)
    requires
        call_ensures(split_text, (s, sep), r),
        call_ensures(split_text, (rest, sep), others),
        s@ == first + seq![sep] + rest@,
        !first.contains(sep),
    ensures
        r@.len() == others@.len() + 1,
        r@[0]@ == first,
        forall|i: int| 0 <= i < others@.len() ==> r@[i + 1]@ == (#[trigger] others@[i])@,
{
    assert forall|j: int| 0 <= j < first.len() implies s@[j] != sep by {
        assert(s@[j] == first[j]);
    }
    assert(s@[first.len() as int] == sep);
    lemma_prefix_len(s@, sep, first.len());
    assert(s@.take(first.len() as int) =~= first);
    assert(s@.skip(first.len() as int + 1) =~= rest@);
    assert(texts(r@) == split(s@, sep));
    assert(texts(others@) == split(rest@, sep));
    assert(texts(r@) =~= seq![first] + texts(others@));
    assert(texts(r@).len() == r@.len() && texts(others@).len() == others@.len());
    assert(texts(r@)[0] == r@[0]@);
    assert forall|i: int| 0 <= i < others@.len() implies r@[i + 1]@ == (#[trigger] others@[i])@ by {
        assert(texts(r@)[i + 1] == texts(others@)[i]);
    }
}

/// A map that was just made holds no property.
pub proof fn lemma_new_properties(map: PropertyMap, name: &str, r: Option<String>)
    requires
        call_ensures(PropertyMap::new, (), map),
        call_ensures(PropertyMap::get, (&map, name), r),
    ensures
        r is None,
{
}

/// A property that was put reads as it was put; every other reads as before.
pub proof fn lemma_put_then_get(
    map: &mut PropertyMap,
    name: String,
    value: String,
    other: &str,
    before: Option<String>,
    after: Option<String>,
)
    requires
        call_ensures(PropertyMap::put, (map, name, value), ()),
        call_ensures(PropertyMap::get, (old(map), other), before),
        call_ensures(PropertyMap::get, (final(map), other), after),
    ensures
        other@ == name@ ==> after is Some && after->0@ == value@,
        other@ != name@ ==> (after is Some <==> before is Some),
        other@ != name@ && after is Some ==> after->0@ == before->0@,
{
}

/// A property is listed exactly where it can be read, and listed once.
pub proof fn lemma_listed_properties(
    map: &PropertyMap,
    name: &str,
    value: Option<String>,
    names: Vec<String>,
    i: int,
    j: int,
)
    requires
        call_ensures(PropertyMap::get, (map, name), value),
        call_ensures(PropertyMap::names, (map,), names),
    ensures
        value is Some <==> exists|k: int| 0 <= k < names@.len() && (#[trigger] names@[k])@ == name@,
        0 <= i < j < names@.len() ==> names@[i]@ != names@[j]@,
{
    assert(map@.dom().contains(name@) <==> texts(names@).to_set().contains(name@));
    if value is Some {
        let k = texts(names@).index_of(name@);
        assert(texts(names@)[k] == names@[k]@);
    }
    if exists|k: int| 0 <= k < names@.len() && (#[trigger] names@[k])@ == name@ {
        let k = choose|k: int| 0 <= k < names@.len() && (#[trigger] names@[k])@ == name@;
        assert(texts(names@)[k] == name@);
    }
    if 0 <= i < j < names@.len() {
        assert(texts(names@)[i] != texts(names@)[j]);
    }
}

/// The client id of a message is its property of that name.
pub proof fn lemma_client_id(msg: &MessageExt, id: Option<String>, value: Option<String>)
    requires
        call_ensures(MessageExt::uniq_id, (msg,), id),
        call_ensures(PropertyMap::get, (&msg.properties, "UNIQ_KEY"), value),
    ensures
        id is Some <==> value is Some,
        id is Some ==> id->0@ == value->0@,
{
}

} // verus!
