//! Properties that hold across the library's operations.
use vstd::prelude::*;

use crate::client::credentials_form;
use crate::json::JsonValue;
use crate::login::{Login, LoginAction, LoginEvent, LoginStage};
use crate::client::{customer_id_value, page_permits_value, permit_document_value, token_value};
use crate::client::PERMITS_PATTERN;
use crate::pattern::{regex_accepts, regex_capture};
use crate::text::{
    decimal_text, decimal_value, digit_char, hex_digit, hex_value, is_ascii_digit, is_unreserved,
    is_unreserved_char, is_upper_hex, percent_decoded, percent_encoded, reads_as_u64, unsigned_digits,
    well_encoded, without_char,
};
use crate::time::end_of_day_secs;

verus! {

proof fn lemma_percent_encoded_chars(bytes: Seq<u8>)
    ensures
        forall|i: int|
            0 <= i < percent_encoded(bytes).len() ==> #[trigger] percent_encoded(bytes)[i] != '&'
                && percent_encoded(bytes)[i] != '=',
    decreases bytes.len(),
{
    if bytes.len() > 0 {
        let b = bytes.last();
        lemma_percent_encoded_chars(bytes.drop_last());
        let head = percent_encoded(bytes.drop_last());
        let tail = if is_unreserved(b) {
            seq![(b as u32) as char]
        } else {
            seq!['%', hex_digit(b / 16), hex_digit(b % 16)]
        };
        assert(percent_encoded(bytes) == head + tail);
        assert forall|i: int| 0 <= i < tail.len() implies #[trigger] tail[i] != '&' && tail[i] != '=' by {
            if !is_unreserved(b) && i > 0 {
                assert(b / 16 < 16 && b % 16 < 16);
            }
        }
        assert forall|i: int| 0 <= i < percent_encoded(bytes).len() implies #[trigger] percent_encoded(
            bytes,
        )[i] != '&' && percent_encoded(bytes)[i] != '=' by {
            if i < head.len() {
                assert(percent_encoded(bytes)[i] == head[i]);
            } else {
                assert(percent_encoded(bytes)[i] == tail[i - head.len()]);
            }
        }
    }
}

/// Whatever the e-mail address and password, their encoded forms contain
/// neither `&` nor `=`, only unreserved characters and `%XX` escapes: the
/// login form has exactly the fields `Email` and `Password`, holding the two
/// values.
pub proof fn law_credentials_form_fields(email: Seq<char>, password: Seq<char>)
    ensures
        ({
            let e = percent_encoded(vstd::utf8::encode_utf8(email));
            let p = percent_encoded(vstd::utf8::encode_utf8(password));
            &&& credentials_form(email, password) == "Email="@ + e + "&Password="@ + p
            &&& forall|i: int| 0 <= i < e.len() ==> #[trigger] e[i] != '&' && e[i] != '='
            &&& forall|i: int| 0 <= i < p.len() ==> #[trigger] p[i] != '&' && p[i] != '='
            &&& well_encoded(e)
            &&& well_encoded(p)
        }),
{
    lemma_percent_shape(vstd::utf8::encode_utf8(email));
    lemma_percent_shape(vstd::utf8::encode_utf8(password));
    lemma_percent_encoded_chars(vstd::utf8::encode_utf8(email));
    lemma_percent_encoded_chars(vstd::utf8::encode_utf8(password));
}

proof fn lemma_hex_digit(d: u8)
    requires
        d < 16,
    ensures
        hex_value(hex_digit(d)) == d,
        hex_digit(d) != '%',
{
}

proof fn lemma_percent_signs(bytes: Seq<u8>)
    ensures
        forall|i: int|
            0 <= i < percent_encoded(bytes).len() && #[trigger] percent_encoded(bytes)[i] == '%' ==> i
                + 3 <= percent_encoded(bytes).len(),
    decreases bytes.len(),
{
    if bytes.len() > 0 {
        let b = bytes.last();
        lemma_percent_signs(bytes.drop_last());
        let head = percent_encoded(bytes.drop_last());
        let tail = if is_unreserved(b) {
            seq![(b as u32) as char]
        } else {
            seq!['%', hex_digit(b / 16), hex_digit(b % 16)]
        };
        assert(percent_encoded(bytes) == head + tail);
        if !is_unreserved(b) {
            lemma_hex_digit(b / 16);
            lemma_hex_digit(b % 16);
        }
        assert forall|i: int|
            0 <= i < percent_encoded(bytes).len() && #[trigger] percent_encoded(bytes)[i] == '%' implies i
                + 3 <= percent_encoded(bytes).len() by {
            if i < head.len() {
                assert(percent_encoded(bytes)[i] == head[i]);
            } else {
                assert(percent_encoded(bytes)[i] == tail[i - head.len()]);
            }
        }
    }
}

proof fn lemma_percent_shape(bytes: Seq<u8>)
    ensures
        well_encoded(percent_encoded(bytes)),
    decreases bytes.len(),
{
    if bytes.len() > 0 {
        let b = bytes.last();
        lemma_percent_shape(bytes.drop_last());
        let head = percent_encoded(bytes.drop_last());
        let text = percent_encoded(bytes);
        let tail = if is_unreserved(b) {
            seq![(b as u32) as char]
        } else {
            seq!['%', hex_digit(b / 16), hex_digit(b % 16)]
        };
        assert(text == head + tail);
        if !is_unreserved(b) {
            lemma_hex_digit(b / 16);
            lemma_hex_digit(b % 16);
            assert(is_upper_hex(hex_digit(b / 16)) && is_unreserved_char(hex_digit(b / 16)));
            assert(is_upper_hex(hex_digit(b % 16)) && is_unreserved_char(hex_digit(b % 16)));
        } else {
            assert(is_unreserved_char((b as u32) as char));
        }
        assert forall|i: int| 0 <= i < text.len() implies is_unreserved_char(#[trigger] text[i])
            || text[i] == '%' by {
            if i < head.len() {
                assert(text[i] == head[i]);
            } else {
                assert(text[i] == tail[i - head.len()]);
            }
        }
        assert forall|i: int| 0 <= i < text.len() && #[trigger] text[i] == '%' implies i + 2 < text.len()
            && is_upper_hex(text[i + 1]) && is_upper_hex(text[i + 2]) by {
            if i < head.len() {
                assert(text[i] == head[i]);
                assert(text[i + 1] == head[i + 1]);
                assert(text[i + 2] == head[i + 2]);
            } else {
                assert(text[i] == tail[i - head.len()]);
                assert(text[i + 1] == tail[i + 1 - head.len()]);
                assert(text[i + 2] == tail[i + 2 - head.len()]);
            }
        }
    }
}

proof fn lemma_percent_round_trip(bytes: Seq<u8>)
    ensures
        percent_decoded(percent_encoded(bytes)) == bytes,
    decreases bytes.len(),
{
    if bytes.len() > 0 {
        let b = bytes.last();
        lemma_percent_round_trip(bytes.drop_last());
        lemma_percent_signs(bytes.drop_last());
        let head = percent_encoded(bytes.drop_last());
        let text = percent_encoded(bytes);
        if is_unreserved(b) {
            let c = (b as u32) as char;
            assert(text == head + seq![c]);
            if text.len() >= 3 {
                assert(text[text.len() - 3] == head[head.len() - 2]);
                assert(head[head.len() - 2] != '%');
            }
            assert(text.drop_last() =~= head);
            assert(c as u8 == b);
        } else {
            let tail = seq!['%', hex_digit(b / 16), hex_digit(b % 16)];
            assert(text == head + tail);
            lemma_hex_digit(b / 16);
            lemma_hex_digit(b % 16);
            assert(text.take(text.len() - 3) =~= head);
            assert(text[text.len() - 3] == '%');
            assert(text[text.len() - 2] == hex_digit(b / 16));
            assert(text.last() == hex_digit(b % 16));
            assert((b / 16) * 16 + b % 16 == b);
        }
        assert(bytes.drop_last().push(b) =~= bytes);
    }
}

/// Percent-decoding each encoded value of the login form gives back the
/// UTF-8 bytes of the e-mail address and the password, and so the values
/// themselves: nothing is lost or added by the encoding.
pub proof fn law_credentials_form_decodes(email: Seq<char>, password: Seq<char>)
    ensures
        percent_decoded(percent_encoded(vstd::utf8::encode_utf8(email))) == vstd::utf8::encode_utf8(
            email,
        ),
        percent_decoded(percent_encoded(vstd::utf8::encode_utf8(password)))
            == vstd::utf8::encode_utf8(password),
        vstd::utf8::decode_utf8(percent_decoded(percent_encoded(vstd::utf8::encode_utf8(email))))
            == email,
        vstd::utf8::decode_utf8(percent_decoded(percent_encoded(vstd::utf8::encode_utf8(password))))
            == password,
{
    lemma_percent_round_trip(vstd::utf8::encode_utf8(email));
    lemma_percent_round_trip(vstd::utf8::encode_utf8(password));
    vstd::utf8::encode_utf8_decode_utf8(email);
    vstd::utf8::encode_utf8_decode_utf8(password);
}

proof fn lemma_decimal_text(n: nat)
    ensures
        decimal_text(n).len() > 0,
        forall|i: int| 0 <= i < decimal_text(n).len() ==> is_ascii_digit(#[trigger] decimal_text(n)[i]),
        decimal_value(decimal_text(n)) == n,
    decreases n,
{
    if n >= 10 {
        lemma_decimal_text(n / 10);
        let s = decimal_text(n);
        let prefix = decimal_text(n / 10);
        assert(s == prefix.push(digit_char(n % 10)));
        assert(s.drop_last() =~= prefix);
        assert forall|i: int| 0 <= i < s.len() implies is_ascii_digit(#[trigger] s[i]) by {
            if i < prefix.len() {
                assert(s[i] == prefix[i]);
            }
        }
        assert(decimal_value(s) == decimal_value(prefix) * 10 + (n % 10));
        assert((n / 10) * 10 + n % 10 == n) by (nonlinear_arith);
    } else {
        let s = decimal_text(n);
        assert(s.drop_last() =~= Seq::<char>::empty());
        assert(decimal_value(Seq::<char>::empty()) == 0);
        assert(digit_char(n) as int - 48 == n);
    }
}

/// The customer number written into a session listing (as its decimal
/// numeral) reads back, under the rules by which a customer number is read
/// from a page, as the same number.
pub proof fn law_customer_number_round_trip(n: u64)
    ensures
        reads_as_u64(decimal_text(n as nat)),
        decimal_value(unsigned_digits(decimal_text(n as nat))) == n,
{
    lemma_decimal_text(n as nat);
    assert(unsigned_digits(decimal_text(n as nat)) == decimal_text(n as nat));
}

/// A session started without a chosen end lasts until the last second of
/// its UTC day: that second is not before the start, less than a day after
/// it, the last of its day, and its own day's end.
pub proof fn law_end_of_day(secs: int)
    ensures
        secs <= end_of_day_secs(secs) < secs + 86400,
        (end_of_day_secs(secs) + 1) % 86400 == 0,
        end_of_day_secs(end_of_day_secs(secs)) == end_of_day_secs(secs),
{
    let q = secs / 86400;
    assert(q * 86400 <= secs < q * 86400 + 86400) by (nonlinear_arith)
        requires
            q == secs / 86400,
    ;
    assert((q * 86400 + 86399) / 86400 == q) by (nonlinear_arith);
    assert((q * 86400 + 86400) % 86400 == 0) by (nonlinear_arith);
    assert(end_of_day_secs(secs) == q * 86400 + 86399);
}

proof fn lemma_without_char(s: Seq<char>, c: char)
    ensures
        forall|i: int| 0 <= i < without_char(s, c).len() ==> #[trigger] without_char(s, c)[i] != c,
        without_char(s, c).len() <= s.len(),
    decreases s.len(),
{
    if s.len() > 0 {
        lemma_without_char(s.drop_last(), c);
        let prefix = without_char(s.drop_last(), c);
        if s.last() != c {
            assert forall|i: int| 0 <= i < without_char(s, c).len() implies #[trigger] without_char(
                s,
                c,
            )[i] != c by {
                if i < prefix.len() {
                    assert(without_char(s, c)[i] == prefix[i]);
                }
            }
        }
    }
}

proof fn lemma_without_absent_char(s: Seq<char>, c: char)
    requires
        forall|i: int| 0 <= i < s.len() ==> #[trigger] s[i] != c,
    ensures
        without_char(s, c) == s,
    decreases s.len(),
{
    if s.len() > 0 {
        assert forall|i: int| 0 <= i < s.drop_last().len() implies #[trigger] s.drop_last()[i] != c by {
            assert(s.drop_last()[i] == s[i]);
        }
        lemma_without_absent_char(s.drop_last(), c);
        assert(s.drop_last().push(s.last()) =~= s);
    }
}

/// The document extracted from the customer page holds no backslash, so
/// extracting again changes nothing.
pub proof fn law_backslashes_removed(s: Seq<char>)
    ensures
        forall|i: int| 0 <= i < without_char(s, '\\').len() ==> #[trigger] without_char(s, '\\')[i]
            != '\\',
        without_char(without_char(s, '\\'), '\\') == without_char(s, '\\'),
{
    lemma_without_char(s, '\\');
    lemma_without_absent_char(without_char(s, '\\'), '\\');
}

proof fn lemma_without_char_concat(a: Seq<char>, b: Seq<char>, c: char)
    ensures
        without_char(a + b, c) == without_char(a, c) + without_char(b, c),
    decreases b.len(),
{
    if b.len() == 0 {
        assert(a + b =~= a);
        assert(without_char(a, c) + without_char(b, c) =~= without_char(a, c));
    } else {
        lemma_without_char_concat(a, b.drop_last(), c);
        assert((a + b).drop_last() =~= a + b.drop_last());
        assert((a + b).last() == b.last());
        if b.last() != c {
            assert(without_char(a, c) + without_char(b.drop_last(), c).push(b.last()) =~= (
            without_char(a, c) + without_char(b.drop_last(), c)).push(b.last()));
        }
    }
}

/// Backslashes inserted anywhere into the text of the embedded document
/// make no difference once the backslashes are removed.
pub proof fn law_backslash_insertion(before: Seq<char>, after: Seq<char>)
    ensures
        without_char(before + seq!['\\'] + after, '\\') == without_char(before + after, '\\'),
{
    lemma_without_char_concat(before + seq!['\\'], after, '\\');
    lemma_without_char_concat(before, seq!['\\'], '\\');
    lemma_without_char_concat(before, after, '\\');
    let single = seq!['\\'];
    assert(single.len() == 1 && single.last() == '\\');
    assert(single.drop_last() =~= Seq::<char>::empty());
    assert(without_char(Seq::<char>::empty(), '\\') == Seq::<char>::empty());
    assert(without_char(seq!['\\'], '\\') =~= Seq::<char>::empty());
    assert(without_char(before, '\\') + Seq::<char>::empty() =~= without_char(before, '\\'));
}

/// Two customer pages whose embedded documents differ only in backslashes
/// yield the same document, and so the same permits.
pub proof fn law_permit_document_ignores_backslashes(page1: Seq<char>, page2: Seq<char>)
    requires
        regex_accepts(PERMITS_PATTERN@),
        regex_capture(PERMITS_PATTERN@, page1, 1) matches Some(t1) && regex_capture(
            PERMITS_PATTERN@,
            page2,
            1,
        ) matches Some(t2) && without_char(t1, '\\') == without_char(t2, '\\'),
    ensures
        permit_document_value(page1) == permit_document_value(page2),
        page_permits_value(page1) == page_permits_value(page2),
{
}

/// A finished login waits for nothing more and takes no further step.
pub proof fn law_finished_login_is_final(login: Login, event: LoginEvent, next: Login, action: LoginAction)
    requires
        login.spec_stage() == LoginStage::Finished,
    ensures
        !login.expects(event),
        !login.stepped(event, next, action),
{
}

/// A login that goes through its three steps completes exactly when the
/// customer page shows a customer number and lists permits, after the login
/// page carried a token and the service accepted the credentials; the
/// account it yields has that customer number, the address logged in at,
/// and those permits. Otherwise the last step gives up.
pub proof fn law_login_outcome(
    l0: Login,
    l1: Login,
    l2: Login,
    l3: Login,
    e1: LoginEvent,
    e2: LoginEvent,
    e3: LoginEvent,
    a1: LoginAction,
    a2: LoginAction,
    a3: LoginAction,
)
    requires
        l0.spec_stage() == LoginStage::FetchingLoginPage,
        l0.stepped(e1, l1, a1),
        l1.stepped(e2, l2, a2),
        l2.stepped(e3, l3, a3),
    ensures
        token_value(e1.text@) is Some,
        e2.success,
        l3.spec_stage() == LoginStage::Finished,
        match (customer_id_value(e3.text@), page_permits_value(e3.text@)) {
            (Some(id), Some(permits)) => a3 matches LoginAction::Complete(client) && {
                &&& client.spec_customer_id() == id
                &&& client.spec_endpoint() == l0.spec_endpoint()
                &&& client.spec_permits() == permits
            },
            _ => a3 is Abort,
        },
{
}

/// The model of a JSON object member lookup: a missing member reads as
/// `Null`, and so does any member of a value that is not an object.
pub proof fn law_missing_member_is_null(v: JsonValue, key: Seq<char>)
    ensures
        v.field(key) is None ==> v.member(key) == JsonValue::Null,
        !(v is Object) ==> v.member(key) == JsonValue::Null,
{
}

} // verus!
