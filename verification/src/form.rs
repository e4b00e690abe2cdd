//! The provider's HTML forms: which fields a page holds and which of them
//! are sent back.
use crate::error::SignupError;
use crate::participant::pairs;
use crate::text::same;
use crate::urlencode::{encode_value, is_latin1, wire_value};
use scraper::{Html, Selector};
use vstd::prelude::*;
use vstd::string::*;

verus! {

/// One `<input>` of a form: its `name` and `value` attributes, each absent
/// where the element has none.
#[derive(Debug, PartialEq, Eq)]
pub struct FormInput {
    pub name: Option<String>,
    pub value: Option<String>,
}

/// The inputs of a form, in the order in which the page holds them.
#[derive(Debug, PartialEq, Eq)]
pub struct Form {
    pub inputs: Vec<FormInput>,
}

/// An input as plain text.
pub open spec fn input_text(input: FormInput) -> (Option<Seq<char>>, Option<Seq<char>>) {
    (
        match input.name {
            Some(n) => Some(n@),
            None => None,
        },
        match input.value {
            Some(v) => Some(v@),
            None => None,
        },
    )
}

impl View for Form {
    type V = Seq<(Option<Seq<char>>, Option<Seq<char>>)>;

    open spec fn view(&self) -> Self::V {
        Seq::new(self.inputs@.len(), |i: int| input_text(self.inputs@[i]))
    }
}

/// The longest page, in bytes of UTF-8, that is handed to the HTML library.
/// Its buffers count in 32 bits and may grow to a multiple of the page.
pub open spec fn page_limit() -> usize {
    0x1000_0000
}

/// The page is short enough to be read.
pub open spec fn readable(html: Seq<char>) -> bool {
    vstd::utf8::encode_utf8(html).len() as usize <= page_limit()
}

/// Whether a page is short enough to be read.
pub fn is_readable(html: &str) -> (r: bool)
    ensures
        r == readable(html@),
{
    html.len() <= 0x1000_0000
}

/// Whether the HTML library accepts the text as a CSS selector.
pub uninterp spec fn valid_selector(css: Seq<char>) -> bool;

/// What the HTML library finds in a page: below the first element that
/// matches `scope`, the attributes `first` and `second` of each element that
/// matches `item`, in the library's order; `None` where nothing matches
/// `scope`.
pub uninterp spec fn scoped_attributes(
    html: Seq<char>,
    scope: Seq<char>,
    item: Seq<char>,
    first: Seq<char>,
    second: Seq<char>,
) -> Option<Seq<(Option<Seq<char>>, Option<Seq<char>>)>>;

/// `scraper::Selector::parse`: whether it accepts the text. The answer
/// depends on the text alone.
#[verifier::external_body]
pub(crate) fn selector_parses(css: &str) -> (r: bool)
    ensures
        r == valid_selector(css@),
{
    Selector::parse(css).is_ok()
}

/// `scraper::Html::parse_document`, `Html::select` for the first match of
/// `scope`, `ElementRef::select` for `item` below it and `ElementRef::attr`
/// for the two attributes of each. The result depends on the arguments
/// alone; the selectors are parsed again here, which the `requires` makes
/// safe, as it keeps the page within what the parser's buffers hold.
#[verifier::external_body]
fn scrape_attributes(html: &str, scope: &str, item: &str, first: &str, second: &str) -> (r: Option<
    Vec<FormInput>,
>)
    requires
        readable(html@),
        valid_selector(scope@),
        valid_selector(item@),
    ensures
        match r {
            Some(inputs) => scoped_attributes(html@, scope@, item@, first@, second@) == Some(
                (Form { inputs })@,
            ),
            None => scoped_attributes(html@, scope@, item@, first@, second@) is None,
        },
{
    let (scope, item) = (Selector::parse(scope).unwrap(), Selector::parse(item).unwrap());
    let page = Html::parse_document(html);
    let found = page.select(&scope).next()?;
    Some(found.select(&item).map(|e| FormInput {
        name: e.attr(first).map(str::to_owned),
        value: e.attr(second).map(str::to_owned),
    }).collect())
}

/// The inputs of the first form of a page, as the HTML library reads it.
pub open spec fn first_form(html: Seq<char>) -> Option<Seq<(Option<Seq<char>>, Option<Seq<char>>)>> {
    scoped_attributes(html, "form"@, "input"@, "name"@, "value"@)
}

/// The first form of a page, or why there is none: `TooLarge` for a page
/// that is too long to be read, else `Selector` where the HTML library
/// refuses one of the two selectors, else `NoForm` where the page holds no
/// form.
pub open spec fn form_of(html: Seq<char>) -> Result<
    Seq<(Option<Seq<char>>, Option<Seq<char>>)>,
    SignupError,
> {
    if !readable(html) {
        Err(SignupError::TooLarge)
    } else if !(valid_selector("form"@) && valid_selector("input"@)) {
        Err(SignupError::Selector)
    } else {
        match first_form(html) {
            Some(form) => Ok(form),
            None => Err(SignupError::NoForm),
        }
    }
}

/// A form as plain text, or the error.
pub open spec fn form_view(r: Result<Form, SignupError>) -> Result<
    Seq<(Option<Seq<char>>, Option<Seq<char>>)>,
    SignupError,
> {
    match r {
        Ok(form) => Ok(form@),
        Err(e) => Err(e),
    }
}

/// The first form of a page.
pub fn parse_form(html: &str) -> (r: Result<Form, SignupError>)
    ensures
        form_view(r) == form_of(html@),
{
    if !is_readable(html) {
        return Err(SignupError::TooLarge);
    }
    if !selector_parses("form") || !selector_parses("input") {
        return Err(SignupError::Selector);
    }
    match scrape_attributes(html, "form", "input", "name", "value") {
        Some(inputs) => Ok(Form { inputs }),
        None => Err(SignupError::NoForm),
    }
}

/// A field that identifies the person: the provider seeds some of these
/// with defaults, which must not be sent along on the first request.
pub open spec fn is_user_param(name: Seq<char>) -> bool {
    ||| name == "Geschlecht"@
    ||| name == "Vorname"@
    ||| name == "Name"@
    ||| name == "Strasse"@
    ||| name == "Ort"@
    ||| name == "Statusorig"@
    ||| name == "Matnr"@
    ||| name == "Mail"@
    ||| name == "Tel"@
}

/// Whether an input is sent back: it has a name and a value, is neither of
/// the control buttons `reset` and `back`, and is no field of the person
/// unless those are kept.
pub open spec fn submitted(input: (Option<Seq<char>>, Option<Seq<char>>), keep_user_params: bool) -> bool {
    &&& input.0 matches Some(name)
    &&& input.1 is Some
    &&& name != "reset"@
    &&& name != "back"@
    &&& (keep_user_params || !is_user_param(name))
}

/// The name and value of each input that is sent back, in page order.
pub open spec fn kept_params(
    inputs: Seq<(Option<Seq<char>>, Option<Seq<char>>)>,
    keep_user_params: bool,
) -> Seq<(Seq<char>, Seq<char>)>
    decreases inputs.len(),
{
    if inputs.len() == 0 {
        Seq::empty()
    } else {
        let head = kept_params(inputs.drop_last(), keep_user_params);
        let input = inputs.last();
        if submitted(input, keep_user_params) {
            head.push((input.0->0, input.1->0))
        } else {
            head
        }
    }
}

/// Nothing leaks: no field that is sent back is a control button, and
/// unless the person's fields are kept none is one of them, so that what the
/// provider has seeded for them stays behind.
pub proof fn lemma_kept_params_are_clean(
    inputs: Seq<(Option<Seq<char>>, Option<Seq<char>>)>,
    keep_user_params: bool,
)
    ensures
        forall|i: int|
            0 <= i < kept_params(inputs, keep_user_params).len() ==> {
                let name = (#[trigger] kept_params(inputs, keep_user_params)[i]).0;
                &&& name != "reset"@
                &&& name != "back"@
                &&& (keep_user_params || !is_user_param(name))
            },
        kept_params(inputs, keep_user_params).len() <= inputs.len(),
    decreases inputs.len(),
{
    if inputs.len() > 0 {
        lemma_kept_params_are_clean(inputs.drop_last(), keep_user_params);
    }
}

fn user_param(name: &str) -> (r: bool)
    ensures
        r == is_user_param(name@),
{
    same(name, "Geschlecht") || same(name, "Vorname") || same(name, "Name") || same(
        name,
        "Strasse",
    ) || same(name, "Ort") || same(name, "Statusorig") || same(name, "Matnr") || same(
        name,
        "Mail",
    ) || same(name, "Tel")
}

/// The fields of a form that are sent back to the provider.
pub fn params_from_form(form: &Form, keep_user_params: bool) -> (r: Vec<(String, String)>)
    ensures
        pairs(r@) == kept_params(form@, keep_user_params),
{
    let mut out: Vec<(String, String)> = Vec::new();
    let mut i: usize = 0;
    assert(form@.take(0) =~= Seq::empty());
    while i < form.inputs.len()
        invariant
            i <= form.inputs.len(),
            pairs(out@) == kept_params(form@.take(i as int), keep_user_params),
        decreases form.inputs.len() - i,
    {
        let input = &form.inputs[i];
        proof {
            assert(form@.take(i + 1).drop_last() =~= form@.take(i as int));
            assert(form@.take(i + 1).last() == input_text(*input));
        }
        match (&input.name, &input.value) {
            (Some(name), Some(value)) => {
                if !same(name.as_str(), "reset") && !same(name.as_str(), "back") && (
                keep_user_params || !user_param(name.as_str())) {
                    let ghost before = out@;
                    out.push((name.clone(), value.clone()));
                    assert(pairs(out@) =~= pairs(before).push((name@, value@)));
                }
            },
            _ => {},
        }
        i += 1;
    }
    assert(form@.take(form.inputs.len() as int) =~= form@);
    out
}

/// Every value of the fields is Latin-1 text.
pub open spec fn encodable(fields: Seq<(Seq<char>, Seq<char>)>) -> bool {
    forall|i: int| 0 <= i < fields.len() ==> is_latin1(#[trigger] fields[i].1)
}

/// The fields with each value in its wire form; the names stay.
pub open spec fn encoded(fields: Seq<(Seq<char>, Seq<char>)>) -> Seq<(Seq<char>, Seq<char>)> {
    Seq::new(fields.len(), |i: int| (fields[i].0, wire_value(fields[i].1)))
}

/// Name, `=` and value of each field, joined by `&`.
pub open spec fn joined(fields: Seq<(Seq<char>, Seq<char>)>) -> Seq<char>
    decreases fields.len(),
{
    if fields.len() == 0 {
        Seq::empty()
    } else if fields.len() == 1 {
        fields[0].0 + "="@ + fields[0].1
    } else {
        joined(fields.drop_last()) + "&"@ + fields.last().0 + "="@ + fields.last().1
    }
}

/// The body of an `application/x-www-form-urlencoded` request that submits
/// the fields.
pub open spec fn request_body(fields: Seq<(Seq<char>, Seq<char>)>) -> Seq<char> {
    joined(encoded(fields))
}

/// Puts every value into its wire form, in place and front to back. Fails at
/// the first value that is not Latin-1 text; the values before it are then
/// encoded, it and those after it are untouched.
pub fn encode_params(params: &mut Vec<(String, String)>) -> (r: Result<(), SignupError>)
    ensures
        final(params)@.len() == old(params)@.len(),
        match r {
            Ok(_) => encodable(pairs(old(params)@)) && pairs(final(params)@) == encoded(
                pairs(old(params)@),
            ),
            Err(e) => e == SignupError::Encoding && exists|k: int|
                {
                    &&& 0 <= k < old(params)@.len()
                    &&& !is_latin1(#[trigger] old(params)@[k].1@)
                    &&& encodable(pairs(old(params)@).take(k))
                    &&& pairs(final(params)@) == encoded(pairs(old(params)@).take(k)) + pairs(
                        old(params)@,
                    ).skip(k)
                },
        },
{
    let mut i: usize = 0;
    assert(pairs(params@) =~= encoded(pairs(params@).take(0)) + pairs(params@).skip(0));
    while i < params.len()
        invariant
            i <= params.len(),
            params@.len() == old(params)@.len(),
            encodable(pairs(old(params)@).take(i as int)),
            pairs(params@) == encoded(pairs(old(params)@).take(i as int)) + pairs(
                old(params)@,
            ).skip(i as int),
        decreases params.len() - i,
    {
        let ghost now = params@;
        assert(pairs(now)[i as int] == pairs(old(params)@).skip(i as int)[0]);
        let name = params[i].0.clone();
        match encode_value(params[i].1.as_str()) {
            Some(value) => {
                params.set(i, (name, value));
                proof {
                    let before = pairs(old(params)@);
                    assert(before.take(i + 1) =~= before.take(i as int).push(before[i as int]));
                    assert forall|j: int| 0 <= j < i + 1 implies is_latin1(
                        #[trigger] before.take(i + 1)[j].1,
                    ) by {
                        if j < i {
                            assert(before.take(i as int)[j] == before.take(i + 1)[j]);
                        }
                    }
                    let after = encoded(before.take(i + 1)) + before.skip(i + 1);
                    assert(pairs(params@).len() == after.len());
                    assert forall|j: int| 0 <= j < after.len() implies pairs(params@)[j]
                        == after[j] by {
                        if j < i {
                            assert(pairs(now)[j] == encoded(before.take(i as int))[j]);
                        } else if j > i {
                            assert(pairs(now)[j] == before.skip(i as int)[j - i]);
                        }
                    }
                    assert(pairs(params@) =~= after);
                }
            },
            None => {
                assert(old(params)@[i as int].1@ == pairs(old(params)@)[i as int].1);
                return Err(SignupError::Encoding);
            },
        }
        i += 1;
    }
    proof {
        let before = pairs(old(params)@);
        assert(before.take(before.len() as int) =~= before);
        assert(pairs(params@) =~= encoded(before));
    }
    Ok(())
}

/// Whether every value is Latin-1 text, so that the fields can be sent.
pub fn can_encode(params: &Vec<(String, String)>) -> (r: bool)
    ensures
        r == encodable(pairs(params@)),
{
    let mut i: usize = 0;
    while i < params.len()
        invariant
            i <= params.len(),
            forall|j: int| 0 <= j < i ==> is_latin1(#[trigger] pairs(params@)[j].1),
        decreases params.len() - i,
    {
        if encode_value(params[i].1.as_str()).is_none() {
            assert(!is_latin1(pairs(params@)[i as int].1));
            return false;
        }
        assert(is_latin1(pairs(params@)[i as int].1));
        i += 1;
    }
    true
}

/// Joins name, `=` and value of each field with `&`, as they stand.
fn join_params(params: &Vec<(String, String)>) -> (r: String)
    ensures
        r@ == joined(pairs(params@)),
{
    let mut out = String::new();
    let mut i: usize = 0;
    assert(pairs(params@).take(0) =~= Seq::empty());
    while i < params.len()
        invariant
            i <= params.len(),
            out@ == joined(pairs(params@).take(i as int)),
        decreases params.len() - i,
    {
        proof {
            let all = pairs(params@);
            assert(all.take(i + 1).drop_last() =~= all.take(i as int));
            assert(all.take(i + 1).last() == all[i as int]);
            if i == 0 {
                assert(out@ + all[0].0 =~= all[0].0);
            }
        }
        if i > 0 {
            out.append("&");
        }
        out.append(params[i].0.as_str());
        out.append("=");
        out.append(params[i].1.as_str());
        i += 1;
    }
    assert(pairs(params@).take(params.len() as int) =~= pairs(params@));
    out
}

/// The request body that submits the fields. Fails with `Encoding`, and only
/// with it, exactly where some value is not Latin-1 text.
pub fn request_body_from_params(params: Vec<(String, String)>) -> (r: Result<String, SignupError>)
    ensures
        match r {
            Ok(body) => encodable(pairs(params@)) && body@ == request_body(pairs(params@)),
            Err(e) => e == SignupError::Encoding && !encodable(pairs(params@)),
        },
{
    let mut fields = params;
    let outcome = encode_params(&mut fields);
    match outcome {
        Ok(_) => Ok(join_params(&fields)),
        Err(e) => {
            proof {
                let k = choose|k: int| 0 <= k < params@.len() && !is_latin1(#[trigger] params@[k].1@);
                assert(pairs(params@)[k].1 == params@[k].1@);
            }
            Err(e)
        },
    }
}

} // verus!
