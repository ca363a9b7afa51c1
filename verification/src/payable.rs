use vstd::prelude::*;

verus! {

/// Contains metdata from the `#[payable]` attribute.
#[derive(Debug)]
pub enum MethodPayableMetadata {
    NoMetadata,
    NotPayable,
    Egld,
    SingleEsdtToken(String),
    AnyToken,
}

/// `MethodPayableMetadata` with its token identifier taken by its characters.
pub enum PayableView {
    NoMetadata,
    NotPayable,
    Egld,
    SingleEsdtToken(Seq<char>),
    AnyToken,
}

impl View for MethodPayableMetadata {
    type V = PayableView;

    open spec fn view(&self) -> PayableView {
        match self {
            MethodPayableMetadata::NoMetadata => PayableView::NoMetadata,
            MethodPayableMetadata::NotPayable => PayableView::NotPayable,
            MethodPayableMetadata::Egld => PayableView::Egld,
            MethodPayableMetadata::SingleEsdtToken(s) => PayableView::SingleEsdtToken(s@),
            MethodPayableMetadata::AnyToken => PayableView::AnyToken,
        }
    }
}

impl Clone for MethodPayableMetadata {
    fn clone(&self) -> (res: Self)
        ensures
            res@ == self@,
    {
        match self {
            MethodPayableMetadata::NoMetadata => MethodPayableMetadata::NoMetadata,
            MethodPayableMetadata::NotPayable => MethodPayableMetadata::NotPayable,
            MethodPayableMetadata::Egld => MethodPayableMetadata::Egld,
            MethodPayableMetadata::SingleEsdtToken(s) => MethodPayableMetadata::SingleEsdtToken(
                s.clone(),
            ),
            MethodPayableMetadata::AnyToken => MethodPayableMetadata::AnyToken,
        }
    }
}

/// The token identifier that stands for EGLD payments.
pub open spec fn egld_token_name() -> Seq<char> {
    "EGLD"@
}

/// The token identifier that stands for payments in any token.
pub open spec fn any_token_name() -> Seq<char> {
    "*"@
}

impl PayableView {
    pub open spec fn is_payable(self) -> bool {
        !(self is NotPayable)
    }

    /// The accepted tokens, as listed in the ABI.
    pub open spec fn abi_strings(self) -> Seq<Seq<char>> {
        match self {
            PayableView::NoMetadata | PayableView::NotPayable => seq![],
            PayableView::Egld => seq![egld_token_name()],
            PayableView::SingleEsdtToken(s) => seq![s],
            PayableView::AnyToken => seq![any_token_name()],
        }
    }
}

/// The characters of each string, in order.
pub open spec fn strings_view(v: Seq<String>) -> Seq<Seq<char>> {
    v.map_values(|s: String| s@)
}

impl MethodPayableMetadata {
    pub fn is_payable(&self) -> (payable: bool)
        ensures
            payable == self@.is_payable(),
    {
        !matches!(self, MethodPayableMetadata::NotPayable)
    }

    pub fn abi_strings(&self) -> (strings: Vec<String>)
        ensures
            strings_view(strings@) == self@.abi_strings(),
    {
        let mut strings: Vec<String> = Vec::new();
        match self {
            MethodPayableMetadata::NoMetadata | MethodPayableMetadata::NotPayable => {},
            MethodPayableMetadata::Egld => {
                strings.push(String::from_str("EGLD"));
            },
            MethodPayableMetadata::SingleEsdtToken(s) => {
                strings.push(s.clone());
            },
            MethodPayableMetadata::AnyToken => {
                strings.push(String::from_str("*"));
            },
        }
        assert(strings_view(strings@) =~= self@.abi_strings());
        strings
    }
}

/// What the `#[payable]` attribute of a method gives: `None` where the method
/// has none, `Some(None)` where it has one without a token identifier, and
/// `Some(Some(token))` where it names a token.
pub open spec fn payable_of(payable_attr: Option<Option<String>>) -> Option<PayableView> {
    match payable_attr {
        None => Some(PayableView::NotPayable),
        Some(None) => Some(PayableView::Egld),
        Some(Some(identifier)) => if identifier@ == egld_token_name() {
            Some(PayableView::Egld)
        } else if identifier@ == any_token_name() {
            Some(PayableView::AnyToken)
        } else if identifier@.len() == 0 {
            None
        } else {
            Some(PayableView::SingleEsdtToken(identifier@))
        },
    }
}

/// Reads the payable metadata off a method's `#[payable]` attribute.
/// An attribute without a token identifier means EGLD; an empty token
/// identifier is not allowed.
pub fn process_payable(payable_attr: &Option<Option<String>>) -> (payable: MethodPayableMetadata)
    requires
        payable_of(*payable_attr) is Some,
    ensures
        payable_of(*payable_attr) == Some(payable@),
{
    match payable_attr {
        None => MethodPayableMetadata::NotPayable,
        Some(None) => MethodPayableMetadata::Egld,
        Some(Some(identifier)) => {
            if *identifier == String::from_str("EGLD") {
                MethodPayableMetadata::Egld
            } else if *identifier == String::from_str("*") {
                MethodPayableMetadata::AnyToken
            } else {
                MethodPayableMetadata::SingleEsdtToken(identifier.clone())
            }
        },
    }
}


/// A method is payable exactly when it has a `#[payable]` attribute.
pub proof fn law_payable_iff_attribute(payable_attr: Option<Option<String>>)
    requires
        payable_of(payable_attr) is Some,
    ensures
        payable_of(payable_attr).unwrap().is_payable() == (payable_attr is Some),
{
}

/// The ABI lists at most one accepted token, and lists one only for payable
/// methods.
pub proof fn law_abi_strings_of_payable(payable: PayableView)
    ensures
        payable.abi_strings().len() <= 1,
        payable.abi_strings().len() == 1 ==> payable.is_payable(),
{
}


/// `#[payable]` without a token, and `#[payable("EGLD")]`, accept EGLD;
/// `#[payable("*")]` accepts any token; any other non-empty token
/// identifier accepts exactly that token; an empty one is refused; a method
/// without the attribute is not payable.
pub proof fn law_payable_tokens(payable_attr: Option<Option<String>>)
    ensures
        payable_attr is None ==> payable_of(payable_attr) == Some(PayableView::NotPayable),
        payable_attr == Some(None::<String>) ==> payable_of(payable_attr) == Some(PayableView::Egld),
        payable_attr matches Some(Some(t)) ==> {
            &&& t@ == "EGLD"@ ==> payable_of(payable_attr) == Some(PayableView::Egld)
            &&& t@ == "*"@ ==> payable_of(payable_attr) == Some(PayableView::AnyToken)
            &&& t@.len() == 0 ==> payable_of(payable_attr) is None
            &&& t@ != "EGLD"@ && t@ != "*"@ && t@.len() != 0 ==> payable_of(payable_attr) == Some(
                PayableView::SingleEsdtToken(t@),
            )
        },
{
    reveal_strlit("EGLD");
    reveal_strlit("*");
    assert("EGLD"@.len() == 4);
    assert("*"@.len() == 1);
}

/// Every kind of payable metadata but `NotPayable` is payable. The ABI lists
/// "EGLD" for EGLD payments, "*" for any token, the token itself for a single
/// token, and nothing for methods that are not payable or carry no metadata.
pub proof fn law_payable_kinds_and_abi(t: Seq<char>)
    ensures
        !PayableView::NotPayable.is_payable(),
        PayableView::NoMetadata.is_payable(),
        PayableView::Egld.is_payable(),
        PayableView::AnyToken.is_payable(),
        PayableView::SingleEsdtToken(t).is_payable(),
        PayableView::NotPayable.abi_strings() == Seq::<Seq<char>>::empty(),
        PayableView::NoMetadata.abi_strings() == Seq::<Seq<char>>::empty(),
        PayableView::Egld.abi_strings() == seq!["EGLD"@],
        PayableView::AnyToken.abi_strings() == seq!["*"@],
        PayableView::SingleEsdtToken(t).abi_strings() == seq![t],
{
}

} // verus!
