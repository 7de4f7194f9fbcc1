//! The institution identity and contact data of a characteristics record.
//!
//! Besides the data types, this module holds the contacts extractor: a scan
//! that first collects the address lines — one per text token, with one
//! separator token after each — until the first non-text token, and then
//! reads every remaining text token, keeping the phone numbers of the
//! `"Tel: "` lines and ignoring everything else.

use vstd::prelude::*;

use crate::text::{
    remove_whitespace, remove_ws_spec, split_all_spec, split_all_str, starts_with_str, trim_spec,
    trim_str,
};
use crate::token::{drop2, Token, TokenView};

verus! {

/// An institution code, the part of a code pair before the slash.
#[derive(Debug, Clone, PartialEq)]
pub struct Code(pub String);

impl View for Code {
    type V = Seq<char>;

    open spec fn view(&self) -> Seq<char> {
        self.0@
    }
}

impl DeepView for Code {
    type V = Seq<char>;

    open spec fn deep_view(&self) -> Seq<char> {
        self.0@
    }
}

/// An institution name, as printed in the page heading.
#[derive(Debug, Clone, PartialEq)]
pub struct Name(pub String);

impl View for Name {
    type V = Seq<char>;

    open spec fn view(&self) -> Seq<char> {
        self.0@
    }
}

impl DeepView for Name {
    type V = Seq<char>;

    open spec fn deep_view(&self) -> Seq<char> {
        self.0@
    }
}

/// An email address of the institution.
#[derive(Debug, Clone, PartialEq)]
pub struct EmailAddress(pub String);

impl View for EmailAddress {
    type V = Seq<char>;

    open spec fn view(&self) -> Seq<char> {
        self.0@
    }
}

impl DeepView for EmailAddress {
    type V = Seq<char>;

    open spec fn deep_view(&self) -> Seq<char> {
        self.0@
    }
}

/// The institution's email addresses, in document order.
#[derive(Debug, Clone, PartialEq)]
pub struct EmailAddressList(pub Vec<EmailAddress>);

impl View for EmailAddressList {
    type V = Seq<Seq<char>>;

    open spec fn view(&self) -> Seq<Seq<char>> {
        self.0.deep_view()
    }
}

impl DeepView for EmailAddressList {
    type V = Seq<Seq<char>>;

    open spec fn deep_view(&self) -> Seq<Seq<char>> {
        self.0.deep_view()
    }
}

/// A phone number of the institution, whitespace removed.
#[derive(Debug, Clone, PartialEq)]
pub struct PhoneNumber(pub String);

impl View for PhoneNumber {
    type V = Seq<char>;

    open spec fn view(&self) -> Seq<char> {
        self.0@
    }
}

impl DeepView for PhoneNumber {
    type V = Seq<char>;

    open spec fn deep_view(&self) -> Seq<char> {
        self.0@
    }
}

/// The institution's phone numbers, in document order.
#[derive(Debug, Clone, PartialEq)]
pub struct PhoneNumberList(pub Vec<PhoneNumber>);

impl View for PhoneNumberList {
    type V = Seq<Seq<char>>;

    open spec fn view(&self) -> Seq<Seq<char>> {
        self.0.deep_view()
    }
}

impl DeepView for PhoneNumberList {
    type V = Seq<Seq<char>>;

    open spec fn deep_view(&self) -> Seq<Seq<char>> {
        self.0.deep_view()
    }
}

impl Default for PhoneNumberList {
    fn default() -> (r: Self)
        ensures
            r@ == Seq::<Seq<char>>::empty(),
    {
        let r = PhoneNumberList(Vec::new());
        proof {
            assert(r@ =~= Seq::<Seq<char>>::empty());
        }
        r
    }
}

impl PhoneNumberList {
    /// Append one phone number.
    pub fn push(&mut self, value: String)
        ensures
            final(self)@ == old(self)@.push(value@),
    {
        let ghost pre = self.0.deep_view();
        self.0.push(PhoneNumber(value));
        proof {
            assert(self.0.deep_view() =~= pre.push(self.0@.last()@));
        }
    }

    /// How many numbers the list holds.
    pub fn len(&self) -> (r: usize)
        ensures
            r == self@.len(),
    {
        self.0.len()
    }

    /// The number at position `i`.
    pub fn get(&self, i: usize) -> (r: &PhoneNumber)
        requires
            i < self@.len(),
        ensures
            r@ == self@[i as int],
    {
        &self.0[i]
    }
}

/// The institution's address, one entry per printed line.
#[derive(Debug, Clone, PartialEq)]
pub struct Address {
    pub lines: Vec<String>,
}

impl View for Address {
    type V = Seq<Seq<char>>;

    open spec fn view(&self) -> Seq<Seq<char>> {
        self.lines.deep_view()
    }
}

impl DeepView for Address {
    type V = Seq<Seq<char>>;

    open spec fn deep_view(&self) -> Seq<Seq<char>> {
        self.lines.deep_view()
    }
}

impl Default for Address {
    fn default() -> (r: Self)
        ensures
            r@ == Seq::<Seq<char>>::empty(),
    {
        let r = Address { lines: Vec::new() };
        proof {
            assert(r@ =~= Seq::<Seq<char>>::empty());
        }
        r
    }
}

impl Address {
    /// Append one address line.
    pub fn push(&mut self, value: String)
        ensures
            final(self)@ == old(self)@.push(value@),
    {
        let ghost pre = self.lines.deep_view();
        self.lines.push(value);
        proof {
            assert(self.lines.deep_view() =~= pre.push(self.lines@.last()@));
        }
    }
}

/// An institution: identity fields filled by the characteristics section,
/// contact fields filled by the contacts section.
#[derive(Debug, Clone, PartialEq)]
pub struct Institution {
    pub code: Option<Code>,
    pub name: Option<Name>,
    pub address: Option<Address>,
    pub phone_numbers: Option<PhoneNumberList>,
    pub email_addresses: Option<EmailAddressList>,
}

/// The mathematical image of an [`Institution`].
pub ghost struct InstitutionView {
    pub code: Option<Seq<char>>,
    pub name: Option<Seq<char>>,
    pub address: Option<Seq<Seq<char>>>,
    pub phone_numbers: Option<Seq<Seq<char>>>,
    pub email_addresses: Option<Seq<Seq<char>>>,
}

impl View for Institution {
    type V = InstitutionView;

    open spec fn view(&self) -> InstitutionView {
        InstitutionView {
            code: self.code.deep_view(),
            name: self.name.deep_view(),
            address: self.address.deep_view(),
            phone_numbers: self.phone_numbers.deep_view(),
            email_addresses: self.email_addresses.deep_view(),
        }
    }
}

impl DeepView for Institution {
    type V = InstitutionView;

    open spec fn deep_view(&self) -> InstitutionView {
        self.view()
    }
}

/// An institution with nothing observed yet.
pub open spec fn empty_institution() -> InstitutionView {
    InstitutionView {
        code: None,
        name: None,
        address: None,
        phone_numbers: None,
        email_addresses: None,
    }
}

impl Default for Institution {
    fn default() -> (r: Self)
        ensures
            r@ == empty_institution(),
    {
        Institution {
            code: None,
            name: None,
            address: None,
            phone_numbers: None,
            email_addresses: None,
        }
    }
}

/// The address pass: the lines collected — each text token trimmed, one
/// separator token consumed after it — and the tokens left after the first
/// non-text token, itself consumed.
pub open spec fn addr_scan(toks: Seq<TokenView>) -> (Seq<Seq<char>>, Seq<TokenView>)
    decreases toks.len(),
{
    if toks.len() == 0 {
        (Seq::empty(), Seq::empty())
    } else {
        match toks[0] {
            TokenView::Markup => (Seq::empty(), toks.skip(1)),
            TokenView::Text(text) => {
                let rec = addr_scan(drop2(toks));
                (seq![trim_spec(text)] + rec.0, rec.1)
            },
        }
    }
}

/// The phone numbers one text fragment contributes: for a `"Tel: "` line,
/// the rest split at every `", "` with whitespace removed from each piece;
/// nothing for any other fragment.
pub open spec fn phone_entries(text: Seq<char>) -> Seq<Seq<char>> {
    if "Tel: "@.is_prefix_of(text) {
        split_all_spec(text.skip("Tel: "@.len() as int), ", "@).map(
            |i: int, p: Seq<char>| remove_ws_spec(p),
        )
    } else {
        Seq::empty()
    }
}

/// The contacts pass over the tokens left by the address pass: every
/// remaining token is read, and only `"Tel: "` lines contribute.
pub open spec fn phones_scan(toks: Seq<TokenView>) -> Seq<Seq<char>>
    decreases toks.len(),
{
    if toks.len() == 0 {
        Seq::empty()
    } else {
        (match toks[0] {
            TokenView::Text(text) => phone_entries(text),
            TokenView::Markup => Seq::empty(),
        }) + phones_scan(toks.skip(1))
    }
}

/// What the whole extraction of a contacts section yields: the address
/// lines and phone numbers observed, each part present only if anything
/// was collected for it.
pub open spec fn institution_contacts_spec(toks: Seq<TokenView>) -> InstitutionView {
    let a = addr_scan(toks);
    let phones = phones_scan(a.1);
    InstitutionView {
        code: None,
        name: None,
        address: if a.0.len() > 0 {
            Some(a.0)
        } else {
            None
        },
        phone_numbers: if phones.len() > 0 {
            Some(phones)
        } else {
            None
        },
        email_addresses: None,
    }
}

/// The lines collected so far, with an absent address standing for none.
pub open spec fn address_lines(address: &Option<Address>) -> Seq<Seq<char>> {
    match address {
        Some(a) => a@,
        None => Seq::empty(),
    }
}

/// The numbers collected so far, with an absent list standing for none.
pub open spec fn phone_lines(phones: &Option<PhoneNumberList>) -> Seq<Seq<char>> {
    match phones {
        Some(l) => l@,
        None => Seq::empty(),
    }
}

/// Extract the institution's contact data of one section, whose tokens
/// start just after the recognized section header.
pub fn institution_contacts_section(toks: &Vec<Token>) -> (r: Institution)
    ensures
        r@ == institution_contacts_spec(toks.deep_view()),
{
    let ghost tv = toks.deep_view();
    let n = toks.len();
    let mut address: Option<Address> = None;
    let mut pos: usize = 0;
    let mut done = false;
    proof {
        assert(tv.skip(0) =~= tv);
    }
    while !done && pos < n
        invariant
            tv == toks.deep_view(),
            n == tv.len(),
            pos <= n,
            address is Some <==> address_lines(&address).len() > 0,
            !done ==> addr_scan(tv).0 == address_lines(&address) + addr_scan(
                tv.skip(pos as int),
            ).0,
            !done ==> addr_scan(tv).1 == addr_scan(tv.skip(pos as int)).1,
            done ==> addr_scan(tv).0 == address_lines(&address),
            done ==> addr_scan(tv).1 == tv.skip(pos as int),
        decreases n - pos + if done {
            0int
        } else {
            1int
        },
    {
        let ghost pos0 = pos as int;
        let ghost lines0 = address_lines(&address);
        proof {
            assert(tv.skip(pos0)[0] == tv[pos0]);
            assert(tv[pos0] == toks@[pos0].deep_view());
        }
        match &toks[pos] {
            Token::Markup => {
                pos += 1;
                done = true;
                proof {
                    assert(tv.skip(pos0).skip(1) =~= tv.skip(pos as int));
                    assert(addr_scan(tv).0 =~= lines0);
                }
            },
            Token::Text(text) => {
                let ghost text_v = text@;
                let line = trim_str(text.as_str());
                match &mut address {
                    Some(a) => {
                        a.push(line);
                    },
                    None => {
                        let mut a = Address::default();
                        a.push(line);
                        address = Some(a);
                    },
                }
                if n - pos >= 2 {
                    pos += 2;
                } else {
                    pos = n;
                }
                proof {
                    assert(address_lines(&address) =~= lines0.push(trim_spec(text_v)));
                    assert(tv.skip(pos0)[0] == TokenView::Text(text_v));
                    assert(drop2(tv.skip(pos0)) =~= tv.skip(pos as int));
                    assert(addr_scan(tv.skip(pos0)).0 == seq![trim_spec(text_v)] + addr_scan(
                        tv.skip(pos as int),
                    ).0);
                    assert(lines0 + addr_scan(tv.skip(pos0)).0 =~= address_lines(&address)
                        + addr_scan(tv.skip(pos as int)).0);
                }
            },
        }
    }
    proof {
        if !done {
            assert(tv.skip(pos as int) =~= Seq::<TokenView>::empty());
            assert(addr_scan(tv).0 =~= address_lines(&address));
        }
    }
    let ghost rest = addr_scan(tv).1;
    let mut phone_numbers: Option<PhoneNumberList> = None;
    while pos < n
        invariant
            tv == toks.deep_view(),
            n == tv.len(),
            pos <= n,
            rest == addr_scan(tv).1,
            phone_numbers is Some <==> phone_lines(&phone_numbers).len() > 0,
            phones_scan(rest) == phone_lines(&phone_numbers) + phones_scan(tv.skip(pos as int)),
        decreases n - pos,
    {
        let ghost pos0 = pos as int;
        let ghost nums0 = phone_lines(&phone_numbers);
        proof {
            assert(tv.skip(pos0)[0] == tv[pos0]);
            assert(tv[pos0] == toks@[pos0].deep_view());
            assert(tv.skip(pos0).skip(1) =~= tv.skip(pos0 + 1));
        }
        match &toks[pos] {
            Token::Markup => {},
            Token::Text(text) => {
                let ghost text_v = text@;
                if starts_with_str(text.as_str(), "Tel: ") {
                    let plen = "Tel: ".unicode_len();
                    let tlen = text.as_str().unicode_len();
                    let tail = text.as_str().substring_char(plen, tlen);
                    proof {
                        reveal_strlit(", ");
                        assert(tail@ =~= text_v.skip("Tel: "@.len() as int));
                    }
                    let entries = split_all_str(tail, ", ");
                    let ghost pieces = split_all_spec(
                        text_v.skip("Tel: "@.len() as int),
                        ", "@,
                    );
                    let ghost target = phone_entries(text_v);
                    if phone_numbers.is_none() {
                        phone_numbers = Some(PhoneNumberList::default());
                    }
                    match &mut phone_numbers {
                        Some(list) => {
                            let mut j: usize = 0;
                            while j < entries.len()
                                invariant
                                    entries.deep_view() == pieces,
                                    target == pieces.map(|i: int, p: Seq<char>| remove_ws_spec(p)),
                                    j <= entries@.len(),
                                    entries@.len() == pieces.len(),
                                    list@ == nums0 + target.take(j as int),
                                decreases entries@.len() - j,
                            {
                                let number = remove_whitespace(entries[j].as_str());
                                proof {
                                    assert(pieces[j as int] == entries@[j as int]@);
                                    assert(target[j as int] == remove_ws_spec(pieces[j as int]));
                                }
                                list.push(number);
                                proof {
                                    assert(list@ =~= nums0 + target.take(j as int + 1));
                                }
                                j += 1;
                            }
                            proof {
                                assert(target.take(pieces.len() as int) =~= target);
                                assert(pieces.len() >= 1);
                            }
                        },
                        None => {
                            proof {
                                assert(false);
                            }
                        },
                    }
                }
            },
        }
        pos += 1;
        proof {
            assert(nums0 + phones_scan(tv.skip(pos0)) =~= phone_lines(&phone_numbers)
                + phones_scan(tv.skip(pos as int)));
        }
    }
    proof {
        assert(tv.skip(pos as int) =~= Seq::<TokenView>::empty());
        assert(phones_scan(rest) =~= phone_lines(&phone_numbers));
    }
    Institution { code: None, name: None, address, phone_numbers, email_addresses: None }
}

} // verus!
