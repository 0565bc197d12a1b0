//! Where the customer's browser is sent to finish a payment, and how that is
//! read off a URL.

use vstd::prelude::*;
use vstd::hash_map::StringHashMap;
use url::Url;
use crate::enums::Method;

verus! {

/// `url::Url`, a parsed URL. The proofs see nothing inside it.
#[verifier::external_type_specification]
#[verifier::external_body]
pub struct ExUrl(Url);

/// The name/value pairs that `Url::query_pairs` yields for a URL, in order.
pub uninterp spec fn url_query_pairs(url: Url) -> Seq<(Seq<char>, Seq<char>)>;

/// The text of the URL that `Url::set_query` leaves of a URL when it is given
/// no query.
pub uninterp spec fn url_without_query(url: Url) -> Seq<char>;

/// `Url::query_pairs`: the query of the URL, parsed as
/// `application/x-www-form-urlencoded`, each name and value percent-decoded.
/// Nothing is proved of the pairs; they are the named result for this URL.
#[verifier::external_body]
fn query_pairs(url: &Url) -> (pairs: Vec<(String, String)>)
    ensures
        pairs.deep_view() == url_query_pairs(*url),
{
    url.query_pairs().into_owned().collect()
}

/// `Url::set_query` with `None`: the same URL with its query cleared, as
/// text. Nothing is proved of the text; it is the named result for this URL.
#[verifier::external_body]
fn without_query(url: Url) -> (bare: String)
    ensures
        bare@ == url_without_query(url),
{
    let mut bare = url;
    bare.set_query(None);
    String::from(bare)
}

/// The form fields that a list of name/value pairs fills in: each name with
/// the value of its last occurrence.
pub open spec fn fields_of(pairs: Seq<(Seq<char>, Seq<char>)>) -> Map<Seq<char>, Seq<char>>
    decreases pairs.len(),
{
    if pairs.len() == 0 {
        Map::empty()
    } else {
        fields_of(pairs.drop_last()).insert(pairs.last().0, pairs.last().1)
    }
}

/// Whether the pair at `i` is the last of the pairs with this name.
pub open spec fn is_last_with_name(
    pairs: Seq<(Seq<char>, Seq<char>)>,
    i: int,
    name: Seq<char>,
) -> bool {
    &&& 0 <= i < pairs.len()
    &&& pairs[i].0 == name
    &&& forall|j: int| i < j < pairs.len() ==> (#[trigger] pairs[j]).0 != name
}

/// A form holds a name exactly where some pair has it, and then with the
/// value of the last pair that has it.
pub proof fn fields_hold_last_values(pairs: Seq<(Seq<char>, Seq<char>)>, name: Seq<char>)
    ensures
        fields_of(pairs).contains_key(name) <==> exists|i: int|
            0 <= i < pairs.len() && (#[trigger] pairs[i]).0 == name,
        forall|i: int| #[trigger]
            is_last_with_name(pairs, i, name) ==> fields_of(pairs)[name] == pairs[i].1,
    decreases pairs.len(),
{
    if pairs.len() > 0 {
        let front = pairs.drop_last();
        let last = pairs.len() - 1;
        fields_hold_last_values(front, name);
        if pairs[last].0 != name {
            if fields_of(pairs).contains_key(name) {
                let i = choose|i: int| 0 <= i < front.len() && (#[trigger] front[i]).0 == name;
                assert(pairs[i].0 == name);
            }
            assert forall|i: int|
                0 <= i < pairs.len() && (#[trigger] pairs[i]).0 == name implies 0 <= i
                < front.len() && front[i] == pairs[i] by {}
        }
        assert forall|i: int| #[trigger] is_last_with_name(pairs, i, name) implies fields_of(
            pairs,
        )[name] == pairs[i].1 by {
            if i < last {
                assert(pairs[last].0 != name);
                assert forall|j: int| i < j < front.len() implies (#[trigger] front[j]).0
                    != name by {
                    assert(front[j] == pairs[j]);
                }
                assert(is_last_with_name(front, i, name));
            }
        }
    }
}

/// The fields of a form with their values as sequences of characters.
pub open spec fn fields_view(fields: Map<Seq<char>, String>) -> Map<Seq<char>, Seq<char>> {
    fields.map_values(|value: String| value@)
}

/// Fills a form with name/value pairs; a later pair replaces an earlier one
/// of the same name.
pub fn collect_form_fields(pairs: &Vec<(String, String)>) -> (fields: StringHashMap<String>)
    ensures
        fields_view(fields@) == fields_of(pairs.deep_view()),
{
    let mut fields: StringHashMap<String> = StringHashMap::new();
    let n: usize = pairs.len();
    let mut i: usize = 0;
    assert(fields_view(fields@) =~= fields_of(pairs.deep_view().take(0)));
    while i < n
        invariant
            i <= n,
            n == pairs.len(),
            fields_view(fields@) == fields_of(pairs.deep_view().take(i as int)),
        decreases n - i,
    {
        let name = pairs[i].0.clone();
        let value = pairs[i].1.clone();
        proof {
            let all = pairs.deep_view();
            assert(all.take(i + 1).drop_last() == all.take(i as int));
            assert(all.take(i + 1).last() == (name@, value@));
            assert(fields_view(fields@.insert(name@, value)) =~= fields_view(fields@).insert(
                name@,
                value@,
            ));
        }
        fields.insert(name, value);
        i += 1;
    }
    assert(pairs.deep_view().take(n as int) == pairs.deep_view());
    fields
}

/// How the customer's browser is to be redirected.
pub enum RedirectForm {
    /// A form to submit to `endpoint` with `method`.
    Form { endpoint: String, method: Method, form_fields: StringHashMap<String> },
    /// A page to render as it is.
    Html { html_data: String },
}

/// A [`RedirectForm`] with its texts as sequences of characters.
pub enum RedirectFormView {
    Form { endpoint: Seq<char>, method: Method, form_fields: Map<Seq<char>, Seq<char>> },
    Html { html_data: Seq<char> },
}

impl View for RedirectForm {
    type V = RedirectFormView;

    open spec fn view(&self) -> RedirectFormView {
        match *self {
            RedirectForm::Form { endpoint, method, form_fields } => RedirectFormView::Form {
                endpoint: endpoint@,
                method,
                form_fields: fields_view(form_fields@),
            },
            RedirectForm::Html { html_data } => RedirectFormView::Html { html_data: html_data@ },
        }
    }
}

/// The form that redirects to a URL with a method: the URL without its query
/// is the endpoint, and the pairs of the query are the fields.
pub open spec fn redirect_form(url: Url, method: Method) -> RedirectFormView {
    RedirectFormView::Form {
        endpoint: url_without_query(url),
        method,
        form_fields: fields_of(url_query_pairs(url)),
    }
}

impl RedirectForm {
    /// The form that sends the customer to a URL with a method.
    pub fn from(redirect: (Url, Method)) -> (form: Self)
        ensures
            form@ == redirect_form(redirect.0, redirect.1),
    {
        let (url, method) = redirect;
        let pairs = query_pairs(&url);
        let form_fields = collect_form_fields(&pairs);
        RedirectForm::Form { endpoint: without_query(url), method, form_fields }
    }
}

} // verus!
