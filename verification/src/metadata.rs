use vstd::prelude::*;

use crate::payable::MethodPayableMetadata;
use crate::payable::PayableView;
use crate::payable::payable_of;
use crate::payable::process_payable;
use crate::payable::strings_view;

verus! {

/// Method visibility from the point of view of the smart contract
#[derive(Debug)]
pub enum Visibility {
    /// Means it gets a smart contract function generated for it
    Endpoint(String),
    /// Can be used only inside the smart contract, even if it is public in the module.
    Private,
}

/// `Visibility` with the endpoint name taken by its characters.
pub enum VisibilityView {
    Endpoint(Seq<char>),
    Private,
}

impl View for Visibility {
    type V = VisibilityView;

    open spec fn view(&self) -> VisibilityView {
        match self {
            Visibility::Endpoint(name) => VisibilityView::Endpoint(name@),
            Visibility::Private => VisibilityView::Private,
        }
    }
}

/// The attributes of a contract trait method that decide its metadata, each
/// as the attribute parser found it.
pub struct MethodAttributes {
    /// The method's own name.
    pub name: String,
    /// `#[init]` is present.
    pub is_init: bool,
    /// `#[endpoint]` is present, with the endpoint name it gives, if any.
    pub endpoint: Option<Option<String>>,
    /// `#[view]` is present, with the view name it gives, if any.
    pub view: Option<Option<String>>,
    /// `#[payable]` is present, with the token identifier it gives, if any.
    pub payable: Option<Option<String>>,
    /// `#[callback]` is present.
    pub callback: bool,
    /// `#[callback_raw]` is present.
    pub callback_raw: bool,
    /// The identifier of a `#[legacy_event]` attribute.
    pub legacy_event: Option<Vec<u8>>,
    /// The identifier of an `#[event]` attribute.
    pub event: Option<String>,
    /// The storage key of a `#[storage_get]` attribute.
    pub storage_get: Option<String>,
    /// The storage key of a `#[storage_set]` attribute.
    pub storage_set: Option<String>,
    /// The storage key of a `#[storage_mapper]` attribute.
    pub storage_mapper: Option<String>,
    /// The storage key of a `#[storage_get_mut]` attribute.
    pub storage_get_mut: Option<String>,
    /// The storage key of a `#[storage_is_empty]` attribute.
    pub storage_is_empty: Option<String>,
    /// The storage key of a `#[storage_clear]` attribute.
    pub storage_clear: Option<String>,
    /// The implementation path of a `#[module]` attribute.
    pub module: Option<String>,
    /// The method has an implementation provided in the trait.
    pub has_default: bool,
}

/// The kinds of methods whose attributes can be in conflict.
#[derive(Clone, Copy, Debug, PartialEq, Eq, Structural)]
pub enum MethodKind {
    Event,
    Callback,
    StorageGetter,
    StorageSetter,
    StorageMapper,
    StorageGetMut,
    StorageIsEmpty,
    StorageClear,
    Module,
}

/// What a method of some kind cannot be or have.
#[derive(Clone, Copy, Debug, PartialEq, Eq, Structural)]
pub enum Conflict {
    Payable,
    Endpoint,
    Callback,
    StorageGetter,
    StorageSetter,
    StorageMapper,
    StorageGetMut,
    Module,
    ImplementationProvided,
    ImplementationMissing,
    BothCallbackKinds,
}

/// Why a method's attributes were refused.
#[derive(Debug)]
pub enum MetadataError {
    InitWithEndpoint,
    InitWithView,
    EndpointWithView,
    EndpointNamedInit,
    EndpointNameReserved(String),
    ViewNamedInit,
    ViewNameReserved(String),
    EmptyPayableToken,
    Invalid(MethodKind, Conflict),
    /// A regular method without an implementation, with the method's name.
    RegularWithoutImplementation(String),
}

/// `MetadataError` with its names taken by their characters.
pub enum MetadataErrorView {
    InitWithEndpoint,
    InitWithView,
    EndpointWithView,
    EndpointNamedInit,
    EndpointNameReserved(Seq<char>),
    ViewNamedInit,
    ViewNameReserved(Seq<char>),
    EmptyPayableToken,
    Invalid(MethodKind, Conflict),
    RegularWithoutImplementation(Seq<char>),
}

impl View for MetadataError {
    type V = MetadataErrorView;

    open spec fn view(&self) -> MetadataErrorView {
        match self {
            MetadataError::InitWithEndpoint => MetadataErrorView::InitWithEndpoint,
            MetadataError::InitWithView => MetadataErrorView::InitWithView,
            MetadataError::EndpointWithView => MetadataErrorView::EndpointWithView,
            MetadataError::EndpointNamedInit => MetadataErrorView::EndpointNamedInit,
            MetadataError::EndpointNameReserved(n) => MetadataErrorView::EndpointNameReserved(n@),
            MetadataError::ViewNamedInit => MetadataErrorView::ViewNamedInit,
            MetadataError::ViewNameReserved(n) => MetadataErrorView::ViewNameReserved(n@),
            MetadataError::EmptyPayableToken => MetadataErrorView::EmptyPayableToken,
            MetadataError::Invalid(k, c) => MetadataErrorView::Invalid(*k, *c),
            MetadataError::RegularWithoutImplementation(n) => MetadataErrorView::RegularWithoutImplementation(n@),
        }
    }
}

/// The endpoint name of init methods.
pub open spec fn init_endpoint_name() -> Seq<char> {
    "init"@
}

/// The name that an `#[endpoint]` or `#[view]` attribute gives: its own, or
/// else the method's.
pub open spec fn attribute_name(attr_name: Option<String>, method_name: String) -> Seq<char> {
    match attr_name {
        Some(n) => n@,
        None => method_name@,
    }
}

/// The visibility that a method's attributes give it, or why they are refused.
pub open spec fn visibility_of_parts(
    is_init: bool,
    endpoint: Option<Option<String>>,
    view: Option<Option<String>>,
    method_name: String,
    reserved: Seq<Seq<char>>,
) -> Result<VisibilityView, MetadataErrorView> {
    if is_init {
        if endpoint is Some {
            Err(MetadataErrorView::InitWithEndpoint)
        } else if view is Some {
            Err(MetadataErrorView::InitWithView)
        } else {
            Ok(VisibilityView::Endpoint(init_endpoint_name()))
        }
    } else if endpoint is Some {
        let name = attribute_name(endpoint->0, method_name);
        if view is Some {
            Err(MetadataErrorView::EndpointWithView)
        } else if name == init_endpoint_name() {
            Err(MetadataErrorView::EndpointNamedInit)
        } else if reserved.contains(name) {
            Err(MetadataErrorView::EndpointNameReserved(name))
        } else {
            Ok(VisibilityView::Endpoint(name))
        }
    } else if view is Some {
        let name = attribute_name(view->0, method_name);
        if name == init_endpoint_name() {
            Err(MetadataErrorView::ViewNamedInit)
        } else if reserved.contains(name) {
            Err(MetadataErrorView::ViewNameReserved(name))
        } else {
            Ok(VisibilityView::Endpoint(name))
        }
    } else {
        Ok(VisibilityView::Private)
    }
}

/// Whether `name` is one of the reserved names.
pub fn is_reserved(reserved_names: &Vec<String>, name: &String) -> (reserved: bool)
    ensures
        reserved == strings_view(reserved_names@).contains(name@),
{
    let mut i: usize = 0;
    while i < reserved_names.len()
        invariant
            0 <= i <= reserved_names@.len(),
            forall|k: int| 0 <= k < i ==> reserved_names@[k]@ != name@,
        decreases reserved_names@.len() - i,
    {
        if reserved_names[i] == *name {
            assert(strings_view(reserved_names@)[i as int] == name@);
            return true;
        }
        i = i + 1;
    }
    assert forall|k: int| 0 <= k < strings_view(reserved_names@).len() implies strings_view(
        reserved_names@,
    )[k] != name@ by {}
    false
}

/// Checks the endpoint or view name that an attribute gives, where the
/// method is not an init method.
fn named_endpoint(
    attr_name: &Option<String>,
    method_name: &String,
    is_view: bool,
    reserved_names: &Vec<String>,
) -> (res: Result<Visibility, MetadataError>)
    ensures
        ({
            let name = attribute_name(*attr_name, *method_name);
            match res {
                Ok(v) => name != init_endpoint_name() && !strings_view(reserved_names@).contains(
                    name,
                ) && v@ == VisibilityView::Endpoint(name),
                Err(e) => if name == init_endpoint_name() {
                    e@ == (if is_view {
                        MetadataErrorView::ViewNamedInit
                    } else {
                        MetadataErrorView::EndpointNamedInit
                    })
                } else {
                    strings_view(reserved_names@).contains(name) && e@ == (if is_view {
                        MetadataErrorView::ViewNameReserved(name)
                    } else {
                        MetadataErrorView::EndpointNameReserved(name)
                    })
                },
            }
        }),
{
    let ident = match attr_name {
        Some(ident) => ident.clone(),
        None => method_name.clone(),
    };
    if ident == String::from_str("init") {
        if is_view {
            Err(MetadataError::ViewNamedInit)
        } else {
            Err(MetadataError::EndpointNamedInit)
        }
    } else if is_reserved(reserved_names, &ident) {
        if is_view {
            Err(MetadataError::ViewNameReserved(ident))
        } else {
            Err(MetadataError::EndpointNameReserved(ident))
        }
    } else {
        Ok(Visibility::Endpoint(ident))
    }
}

/// Decides a method's visibility from its `#[init]`, `#[endpoint]` and
/// `#[view]` attributes. Init methods get the endpoint name `init`; the
/// other endpoints and views get the name their attribute gives, or else
/// the method's own, which can neither be `init` nor a reserved name.
pub fn process_visibility(
    is_init: bool,
    endpoint: &Option<Option<String>>,
    view: &Option<Option<String>>,
    method_name: &String,
    reserved_names: &Vec<String>,
) -> (res: Result<Visibility, MetadataError>)
    ensures
        ({
            let expected = visibility_of_parts(
                is_init,
                *endpoint,
                *view,
                *method_name,
                strings_view(reserved_names@),
            );
            match res {
                Ok(v) => expected == Ok::<VisibilityView, MetadataErrorView>(v@),
                Err(e) => expected == Err::<VisibilityView, MetadataErrorView>(e@),
            }
        }),        res matches Ok(v) ==> {
            &&& is_init ==> (v matches Visibility::Endpoint(e) && e@ == "init"@)
            &&& (*endpoint matches Some(Some(n)) ==> (!is_init ==> (v matches Visibility::Endpoint(e)
                && e@ == n@)))
            &&& (*endpoint matches Some(None) ==> (!is_init ==> (v matches Visibility::Endpoint(e)
                && e@ == method_name@)))
            &&& (*view matches Some(Some(n)) ==> (!is_init && endpoint is None ==> (
            v matches Visibility::Endpoint(e) && e@ == n@)))
            &&& (*view matches Some(None) ==> (!is_init && endpoint is None ==> (
            v matches Visibility::Endpoint(e) && e@ == method_name@)))
            &&& !is_init && endpoint is None && view is None ==> v is Private
        },
{
    if is_init {
        if endpoint.is_some() {
            return Err(MetadataError::InitWithEndpoint);
        }
        if view.is_some() {
            return Err(MetadataError::InitWithView);
        }
        return Ok(Visibility::Endpoint(String::from_str("init")));
    }
    match endpoint {
        Some(endpoint_name) => {
            if view.is_some() {
                return Err(MetadataError::EndpointWithView);
            }
            named_endpoint(endpoint_name, method_name, false, reserved_names)
        },
        None => match view {
            Some(view_name) => named_endpoint(view_name, method_name, true, reserved_names),
            None => Ok(Visibility::Private),
        },
    }
}


/// The metadata of a contract trait method: what kind of method it is, and
/// what the code generated for it needs to know.
#[allow(inconsistent_fields)]
#[derive(Debug)]
pub enum MethodMetadata {
    Regular { visibility: Visibility, payable: MethodPayableMetadata },
    LegacyEvent { identifier: Vec<u8> },
    Event { identifier: String },
    Callback,
    CallbackRaw,
    StorageGetter { visibility: Visibility, identifier: String },
    StorageSetter { visibility: Visibility, identifier: String },
    StorageMapper { visibility: Visibility, identifier: String },
    StorageGetMut { visibility: Visibility, identifier: String },
    StorageIsEmpty { visibility: Visibility, identifier: String },
    StorageClear { visibility: Visibility, identifier: String },
    Module { impl_path: String },
}

/// `MethodMetadata` with its names and identifiers taken by their contents.
#[allow(inconsistent_fields)]
pub enum MetadataView {
    Regular { visibility: VisibilityView, payable: PayableView },
    LegacyEvent { identifier: Seq<u8> },
    Event { identifier: Seq<char> },
    Callback,
    CallbackRaw,
    StorageGetter { visibility: VisibilityView, identifier: Seq<char> },
    StorageSetter { visibility: VisibilityView, identifier: Seq<char> },
    StorageMapper { visibility: VisibilityView, identifier: Seq<char> },
    StorageGetMut { visibility: VisibilityView, identifier: Seq<char> },
    StorageIsEmpty { visibility: VisibilityView, identifier: Seq<char> },
    StorageClear { visibility: VisibilityView, identifier: Seq<char> },
    Module { impl_path: Seq<char> },
}

impl View for MethodMetadata {
    type V = MetadataView;

    open spec fn view(&self) -> MetadataView {
        match self {
            MethodMetadata::Regular { visibility, payable } => MetadataView::Regular {
                visibility: visibility@,
                payable: payable@,
            },
            MethodMetadata::LegacyEvent { identifier } => MetadataView::LegacyEvent {
                identifier: identifier@,
            },
            MethodMetadata::Event { identifier } => MetadataView::Event { identifier: identifier@ },
            MethodMetadata::Callback => MetadataView::Callback,
            MethodMetadata::CallbackRaw => MetadataView::CallbackRaw,
            MethodMetadata::StorageGetter { visibility, identifier } => MetadataView::StorageGetter {
                visibility: visibility@,
                identifier: identifier@,
            },
            MethodMetadata::StorageSetter { visibility, identifier } => MetadataView::StorageSetter {
                visibility: visibility@,
                identifier: identifier@,
            },
            MethodMetadata::StorageMapper { visibility, identifier } => MetadataView::StorageMapper {
                visibility: visibility@,
                identifier: identifier@,
            },
            MethodMetadata::StorageGetMut { visibility, identifier } => MetadataView::StorageGetMut {
                visibility: visibility@,
                identifier: identifier@,
            },
            MethodMetadata::StorageIsEmpty { visibility, identifier } => MetadataView::StorageIsEmpty {
                visibility: visibility@,
                identifier: identifier@,
            },
            MethodMetadata::StorageClear { visibility, identifier } => MetadataView::StorageClear {
                visibility: visibility@,
                identifier: identifier@,
            },
            MethodMetadata::Module { impl_path } => MetadataView::Module { impl_path: impl_path@ },
        }
    }
}

impl MetadataView {
    /// The name of the endpoint generated for the method, if one is.
    pub open spec fn endpoint_name(self) -> Option<Seq<char>> {
        match self {
            MetadataView::Regular { visibility: VisibilityView::Endpoint(e), .. }
            | MetadataView::StorageGetter { visibility: VisibilityView::Endpoint(e), .. }
            | MetadataView::StorageSetter { visibility: VisibilityView::Endpoint(e), .. }
            | MetadataView::StorageMapper { visibility: VisibilityView::Endpoint(e), .. }
            | MetadataView::StorageGetMut { visibility: VisibilityView::Endpoint(e), .. }
            | MetadataView::StorageIsEmpty { visibility: VisibilityView::Endpoint(e), .. }
            | MetadataView::StorageClear { visibility: VisibilityView::Endpoint(e), .. } => Some(e),
            _ => None,
        }
    }

    /// The method's body is written in the trait, not generated.
    pub open spec fn has_implementation(self) -> bool {
        self is Regular || self is Callback || self is CallbackRaw
    }

    pub open spec fn payable_metadata(self) -> PayableView {
        match self {
            MetadataView::Regular { payable, .. } => payable,
            MetadataView::Callback | MetadataView::CallbackRaw => PayableView::AnyToken,
            MetadataView::StorageGetter { .. } => PayableView::NotPayable,
            MetadataView::StorageSetter { .. } => PayableView::NotPayable,
            MetadataView::StorageGetMut { .. } => PayableView::NotPayable,
            MetadataView::StorageIsEmpty { .. } => PayableView::NotPayable,
            MetadataView::StorageClear { .. } => PayableView::NotPayable,
            _ => PayableView::NoMetadata,
        }
    }
}

impl MethodMetadata {
    pub fn endpoint_name(&self) -> (name: Option<&String>)
        ensures
            (name is Some) == (self@.endpoint_name() is Some),
            name matches Some(n) ==> self@.endpoint_name() == Some(n@),
    {
        match self {
            MethodMetadata::Regular { visibility: Visibility::Endpoint(e), .. }
            | MethodMetadata::StorageGetter { visibility: Visibility::Endpoint(e), .. }
            | MethodMetadata::StorageSetter { visibility: Visibility::Endpoint(e), .. }
            | MethodMetadata::StorageMapper { visibility: Visibility::Endpoint(e), .. }
            | MethodMetadata::StorageGetMut { visibility: Visibility::Endpoint(e), .. }
            | MethodMetadata::StorageIsEmpty { visibility: Visibility::Endpoint(e), .. }
            | MethodMetadata::StorageClear { visibility: Visibility::Endpoint(e), .. } => Some(e),
            _ => None,
        }
    }

    pub fn has_implementation(&self) -> (has: bool)
        ensures
            has == self@.has_implementation(),
    {
        matches!(
            self,
            MethodMetadata::Regular { .. } | MethodMetadata::Callback | MethodMetadata::CallbackRaw
        )
    }

    pub fn payable_metadata(&self) -> (payable: MethodPayableMetadata)
        ensures
            payable@ == self@.payable_metadata(),
            self matches MethodMetadata::Regular { payable: p, .. } ==> payable@ == p@,
            (self is Callback || self is CallbackRaw) ==> payable is AnyToken,
            (self is StorageGetter || self is StorageSetter || self is StorageGetMut
                || self is StorageIsEmpty || self is StorageClear) ==> payable is NotPayable,
            (self is LegacyEvent || self is Event || self is StorageMapper || self is Module)
                ==> payable is NoMetadata,
    {
        match self {
            MethodMetadata::Regular { payable, .. } => payable.clone(),
            MethodMetadata::Callback | MethodMetadata::CallbackRaw => {
                MethodPayableMetadata::AnyToken
            },
            MethodMetadata::StorageGetter { .. } => MethodPayableMetadata::NotPayable,
            MethodMetadata::StorageSetter { .. } => MethodPayableMetadata::NotPayable,
            MethodMetadata::StorageGetMut { .. } => MethodPayableMetadata::NotPayable,
            MethodMetadata::StorageIsEmpty { .. } => MethodPayableMetadata::NotPayable,
            MethodMetadata::StorageClear { .. } => MethodPayableMetadata::NotPayable,
            _ => MethodPayableMetadata::NoMetadata,
        }
    }
}


/// What keeps a method from being an event, if anything.
pub open spec fn event_conflict(a: MethodAttributes, endpoint: bool, payable: bool) -> Option<
    Conflict,
> {
    if payable {
        Some(Conflict::Payable)
    } else if endpoint {
        Some(Conflict::Endpoint)
    } else if a.callback || a.callback_raw {
        Some(Conflict::Callback)
    } else if a.storage_get is Some {
        Some(Conflict::StorageGetter)
    } else if a.storage_set is Some {
        Some(Conflict::StorageSetter)
    } else if a.storage_mapper is Some {
        Some(Conflict::StorageMapper)
    } else if a.storage_get_mut is Some {
        Some(Conflict::StorageGetMut)
    } else if a.module is Some {
        Some(Conflict::Module)
    } else if a.has_default {
        Some(Conflict::ImplementationProvided)
    } else {
        None
    }
}

/// What keeps a method from being a callback, if anything.
pub open spec fn callback_conflict(a: MethodAttributes, endpoint: bool, payable: bool) -> Option<
    Conflict,
> {
    if payable {
        Some(Conflict::Payable)
    } else if endpoint {
        Some(Conflict::Endpoint)
    } else if a.storage_get is Some {
        Some(Conflict::StorageGetter)
    } else if a.storage_set is Some {
        Some(Conflict::StorageSetter)
    } else if a.storage_mapper is Some {
        Some(Conflict::StorageMapper)
    } else if a.storage_get_mut is Some {
        Some(Conflict::StorageGetMut)
    } else if a.module is Some {
        Some(Conflict::Module)
    } else if !a.has_default {
        Some(Conflict::ImplementationMissing)
    } else if a.callback && a.callback_raw {
        Some(Conflict::BothCallbackKinds)
    } else {
        None
    }
}

/// What keeps a method from being a storage accessor, if anything.
pub open spec fn storage_conflict(a: MethodAttributes, payable: bool) -> Option<Conflict> {
    if payable {
        Some(Conflict::Payable)
    } else if a.has_default {
        Some(Conflict::ImplementationProvided)
    } else if a.module is Some {
        Some(Conflict::Module)
    } else {
        None
    }
}

/// What keeps a method from being a module declaration, if anything.
pub open spec fn module_conflict(a: MethodAttributes) -> Option<Conflict> {
    if a.has_default {
        Some(Conflict::ImplementationProvided)
    } else {
        None
    }
}

/// The metadata of a method of the given kind, or the conflict that refuses it.
pub open spec fn checked(kind: MethodKind, conflict: Option<Conflict>, m: MetadataView) -> Result<
    MetadataView,
    MetadataErrorView,
> {
    match conflict {
        Some(c) => Err(MetadataErrorView::Invalid(kind, c)),
        None => Ok(m),
    }
}

/// The metadata that a method's attributes give, once its visibility and
/// payable metadata are known, or why the attributes are refused.
pub open spec fn classify(a: MethodAttributes, vis: VisibilityView, pay: PayableView) -> Result<
    MetadataView,
    MetadataErrorView,
> {
    let payable = pay.is_payable();
    let endpoint = vis is Endpoint;
    if a.legacy_event is Some {
        checked(
            MethodKind::Event,
            event_conflict(a, endpoint, payable),
            MetadataView::LegacyEvent { identifier: a.legacy_event->0@ },
        )
    } else if a.event is Some {
        checked(
            MethodKind::Event,
            event_conflict(a, endpoint, payable),
            MetadataView::Event { identifier: a.event->0@ },
        )
    } else if a.callback || a.callback_raw {
        checked(
            MethodKind::Callback,
            callback_conflict(a, endpoint, payable),
            if a.callback_raw {
                MetadataView::CallbackRaw
            } else {
                MetadataView::Callback
            },
        )
    } else if a.storage_get is Some {
        checked(
            MethodKind::StorageGetter,
            storage_conflict(a, payable),
            MetadataView::StorageGetter { visibility: vis, identifier: a.storage_get->0@ },
        )
    } else if a.storage_set is Some {
        checked(
            MethodKind::StorageSetter,
            storage_conflict(a, payable),
            MetadataView::StorageSetter { visibility: vis, identifier: a.storage_set->0@ },
        )
    } else if a.storage_mapper is Some {
        checked(
            MethodKind::StorageMapper,
            storage_conflict(a, payable),
            MetadataView::StorageMapper { visibility: vis, identifier: a.storage_mapper->0@ },
        )
    } else if a.storage_get_mut is Some {
        checked(
            MethodKind::StorageGetMut,
            storage_conflict(a, payable),
            MetadataView::StorageGetMut { visibility: vis, identifier: a.storage_get_mut->0@ },
        )
    } else if a.storage_is_empty is Some {
        checked(
            MethodKind::StorageIsEmpty,
            storage_conflict(a, payable),
            MetadataView::StorageIsEmpty { visibility: vis, identifier: a.storage_is_empty->0@ },
        )
    } else if a.storage_clear is Some {
        checked(
            MethodKind::StorageClear,
            storage_conflict(a, payable),
            MetadataView::StorageClear { visibility: vis, identifier: a.storage_clear->0@ },
        )
    } else if a.module is Some {
        checked(
            MethodKind::Module,
            module_conflict(a),
            MetadataView::Module { impl_path: a.module->0@ },
        )
    } else if !a.has_default {
        Err(MetadataErrorView::RegularWithoutImplementation(a.name@))
    } else {
        Ok(MetadataView::Regular { visibility: vis, payable: pay })
    }
}

/// The metadata that a method's attributes give, or why they are refused:
/// its visibility is checked first, then its `#[payable]` attribute, then
/// the combination of its attributes.
pub open spec fn metadata_of(a: MethodAttributes, reserved: Seq<Seq<char>>) -> Result<
    MetadataView,
    MetadataErrorView,
> {
    match visibility_of_parts(a.is_init, a.endpoint, a.view, a.name, reserved) {
        Err(e) => Err(e),
        Ok(vis) => match payable_of(a.payable) {
            None => Err(MetadataErrorView::EmptyPayableToken),
            Some(pay) => classify(a, vis, pay),
        },
    }
}


fn find_event_conflict(a: &MethodAttributes, endpoint: bool, payable: bool) -> (c: Option<Conflict>)
    ensures
        c == event_conflict(*a, endpoint, payable),
{
    if payable {
        Some(Conflict::Payable)
    } else if endpoint {
        Some(Conflict::Endpoint)
    } else if a.callback || a.callback_raw {
        Some(Conflict::Callback)
    } else if a.storage_get.is_some() {
        Some(Conflict::StorageGetter)
    } else if a.storage_set.is_some() {
        Some(Conflict::StorageSetter)
    } else if a.storage_mapper.is_some() {
        Some(Conflict::StorageMapper)
    } else if a.storage_get_mut.is_some() {
        Some(Conflict::StorageGetMut)
    } else if a.module.is_some() {
        Some(Conflict::Module)
    } else if a.has_default {
        Some(Conflict::ImplementationProvided)
    } else {
        None
    }
}

fn find_callback_conflict(a: &MethodAttributes, endpoint: bool, payable: bool) -> (c: Option<
    Conflict,
>)
    ensures
        c == callback_conflict(*a, endpoint, payable),
{
    if payable {
        Some(Conflict::Payable)
    } else if endpoint {
        Some(Conflict::Endpoint)
    } else if a.storage_get.is_some() {
        Some(Conflict::StorageGetter)
    } else if a.storage_set.is_some() {
        Some(Conflict::StorageSetter)
    } else if a.storage_mapper.is_some() {
        Some(Conflict::StorageMapper)
    } else if a.storage_get_mut.is_some() {
        Some(Conflict::StorageGetMut)
    } else if a.module.is_some() {
        Some(Conflict::Module)
    } else if !a.has_default {
        Some(Conflict::ImplementationMissing)
    } else if a.callback && a.callback_raw {
        Some(Conflict::BothCallbackKinds)
    } else {
        None
    }
}

fn find_storage_conflict(a: &MethodAttributes, payable: bool) -> (c: Option<Conflict>)
    ensures
        c == storage_conflict(*a, payable),
{
    if payable {
        Some(Conflict::Payable)
    } else if a.has_default {
        Some(Conflict::ImplementationProvided)
    } else if a.module.is_some() {
        Some(Conflict::Module)
    } else {
        None
    }
}

/// The payable metadata of a method, or the error for an empty token identifier.
fn check_payable(payable_attr: &Option<Option<String>>) -> (res: Result<
    MethodPayableMetadata,
    MetadataError,
>)
    ensures
        match res {
            Ok(p) => payable_of(*payable_attr) == Some(p@),
            Err(e) => payable_of(*payable_attr) is None && e@ == MetadataErrorView::EmptyPayableToken,
        },
{
    if let Some(Some(identifier)) = payable_attr {
        if identifier.as_str().is_empty() {
            proof {
                reveal_strlit("EGLD");
                reveal_strlit("*");
            }
            return Err(MetadataError::EmptyPayableToken);
        }
    }
    Ok(process_payable(payable_attr))
}

/// Storage accessor metadata of the given kind, or the error for its conflict.
fn storage_metadata(
    kind: MethodKind,
    conflict: Option<Conflict>,
    visibility: Visibility,
    identifier: &String,
) -> (res: Result<MethodMetadata, MetadataError>)
    requires
        kind == MethodKind::StorageGetter || kind == MethodKind::StorageSetter || kind
            == MethodKind::StorageMapper || kind == MethodKind::StorageGetMut || kind
            == MethodKind::StorageIsEmpty || kind == MethodKind::StorageClear,
    ensures
        match res {
            Ok(m) => conflict is None && m@ == storage_view(kind, visibility@, identifier@),
            Err(e) => conflict is Some && e@ == MetadataErrorView::Invalid(kind, conflict->0),
        },
{
    if let Some(c) = conflict {
        return Err(MetadataError::Invalid(kind, c));
    }
    let identifier = identifier.clone();
    match kind {
        MethodKind::StorageGetter => Ok(MethodMetadata::StorageGetter { visibility, identifier }),
        MethodKind::StorageSetter => Ok(MethodMetadata::StorageSetter { visibility, identifier }),
        MethodKind::StorageMapper => Ok(MethodMetadata::StorageMapper { visibility, identifier }),
        MethodKind::StorageGetMut => Ok(MethodMetadata::StorageGetMut { visibility, identifier }),
        MethodKind::StorageIsEmpty => Ok(MethodMetadata::StorageIsEmpty { visibility, identifier }),
        _ => Ok(MethodMetadata::StorageClear { visibility, identifier }),
    }
}

/// The metadata of a storage accessor of the given kind.
pub open spec fn storage_view(kind: MethodKind, visibility: VisibilityView, identifier: Seq<char>) -> MetadataView {
    match kind {
        MethodKind::StorageGetter => MetadataView::StorageGetter { visibility, identifier },
        MethodKind::StorageSetter => MetadataView::StorageSetter { visibility, identifier },
        MethodKind::StorageMapper => MetadataView::StorageMapper { visibility, identifier },
        MethodKind::StorageGetMut => MetadataView::StorageGetMut { visibility, identifier },
        MethodKind::StorageIsEmpty => MetadataView::StorageIsEmpty { visibility, identifier },
        _ => MetadataView::StorageClear { visibility, identifier },
    }
}

/// Decides a method's metadata from its attributes, or says why they are
/// refused. `reserved_names` are the names that no endpoint can take.
pub fn check_metadata(attrs: &MethodAttributes, reserved_names: &Vec<String>) -> (res: Result<
    MethodMetadata,
    MetadataError,
>)
    ensures
        match res {
            Ok(m) => metadata_of(*attrs, strings_view(reserved_names@)) == Ok::<
                MetadataView,
                MetadataErrorView,
            >(m@),
            Err(e) => metadata_of(*attrs, strings_view(reserved_names@)) == Err::<
                MetadataView,
                MetadataErrorView,
            >(e@),
        },
{
    let visibility = match process_visibility(
        attrs.is_init,
        &attrs.endpoint,
        &attrs.view,
        &attrs.name,
        reserved_names,
    ) {
        Ok(v) => v,
        Err(e) => return Err(e),
    };
    let payable = match check_payable(&attrs.payable) {
        Ok(p) => p,
        Err(e) => return Err(e),
    };
    let is_payable = payable.is_payable();
    let endpoint = matches!(visibility, Visibility::Endpoint(_));

    if let Some(identifier) = &attrs.legacy_event {
        if let Some(c) = find_event_conflict(attrs, endpoint, is_payable) {
            return Err(MetadataError::Invalid(MethodKind::Event, c));
        }
        let identifier = identifier.clone();
        assert(identifier@ =~= attrs.legacy_event->0@);
        Ok(MethodMetadata::LegacyEvent { identifier })
    } else if let Some(identifier) = &attrs.event {
        if let Some(c) = find_event_conflict(attrs, endpoint, is_payable) {
            return Err(MetadataError::Invalid(MethodKind::Event, c));
        }
        Ok(MethodMetadata::Event { identifier: identifier.clone() })
    } else if attrs.callback || attrs.callback_raw {
        if let Some(c) = find_callback_conflict(attrs, endpoint, is_payable) {
            return Err(MetadataError::Invalid(MethodKind::Callback, c));
        }
        if attrs.callback_raw {
            Ok(MethodMetadata::CallbackRaw)
        } else {
            Ok(MethodMetadata::Callback)
        }
    } else if let Some(identifier) = &attrs.storage_get {
        let c = find_storage_conflict(attrs, is_payable);
        storage_metadata(MethodKind::StorageGetter, c, visibility, identifier)
    } else if let Some(identifier) = &attrs.storage_set {
        let c = find_storage_conflict(attrs, is_payable);
        storage_metadata(MethodKind::StorageSetter, c, visibility, identifier)
    } else if let Some(identifier) = &attrs.storage_mapper {
        let c = find_storage_conflict(attrs, is_payable);
        storage_metadata(MethodKind::StorageMapper, c, visibility, identifier)
    } else if let Some(identifier) = &attrs.storage_get_mut {
        let c = find_storage_conflict(attrs, is_payable);
        storage_metadata(MethodKind::StorageGetMut, c, visibility, identifier)
    } else if let Some(identifier) = &attrs.storage_is_empty {
        let c = find_storage_conflict(attrs, is_payable);
        storage_metadata(MethodKind::StorageIsEmpty, c, visibility, identifier)
    } else if let Some(identifier) = &attrs.storage_clear {
        let c = find_storage_conflict(attrs, is_payable);
        storage_metadata(MethodKind::StorageClear, c, visibility, identifier)
    } else if let Some(impl_path) = &attrs.module {
        if attrs.has_default {
            return Err(MetadataError::Invalid(MethodKind::Module, Conflict::ImplementationProvided));
        }
        Ok(MethodMetadata::Module { impl_path: impl_path.clone() })
    } else {
        if !attrs.has_default {
            return Err(MetadataError::RegularWithoutImplementation(attrs.name.clone()));
        }
        Ok(MethodMetadata::Regular { visibility, payable })
    }
}

/// Decides a method's metadata from its attributes, on attributes that are
/// not refused (see `check_metadata`, which says why others are).
pub fn extract_metadata(attrs: &MethodAttributes, reserved_names: &Vec<String>) -> (metadata: MethodMetadata)
    requires
        metadata_of(*attrs, strings_view(reserved_names@)) is Ok,
    ensures
        metadata_of(*attrs, strings_view(reserved_names@)) == Ok::<MetadataView, MetadataErrorView>(
            metadata@,
        ),
{
    match check_metadata(attrs, reserved_names) {
        Ok(m) => m,
        Err(_) => {
            assert(false);
            MethodMetadata::Callback
        },
    }
}


/// A method has its body written in the trait exactly when its metadata says
/// it has an implementation: regular methods and callbacks need one, and no
/// other kind of method may provide one.
pub proof fn law_implementation_iff_default(a: MethodAttributes, reserved: Seq<Seq<char>>)
    requires
        metadata_of(a, reserved) is Ok,
    ensures
        metadata_of(a, reserved)->Ok_0.has_implementation() == a.has_default,
{
}

/// Only regular methods and module declarations can carry a `#[payable]`
/// attribute.
pub proof fn law_payable_kinds(a: MethodAttributes, reserved: Seq<Seq<char>>)
    requires
        metadata_of(a, reserved) is Ok,
        a.payable is Some,
    ensures
        metadata_of(a, reserved)->Ok_0 is Regular || metadata_of(a, reserved)->Ok_0 is Module,
{
}

/// An endpoint is named `init` exactly when it is the init method, and no
/// other endpoint takes a reserved name.
pub proof fn law_endpoint_names(a: MethodAttributes, reserved: Seq<Seq<char>>)
    requires
        metadata_of(a, reserved) is Ok,
        metadata_of(a, reserved)->Ok_0.endpoint_name() is Some,
    ensures
        ({
            let name = metadata_of(a, reserved)->Ok_0.endpoint_name().unwrap();
            &&& (name == init_endpoint_name()) == a.is_init
            &&& !a.is_init ==> !reserved.contains(name)
        }),
{
}

/// A method without `#[init]`, `#[endpoint]` and `#[view]` attributes gets
/// no endpoint.
pub proof fn law_no_endpoint_without_attribute(a: MethodAttributes, reserved: Seq<Seq<char>>)
    requires
        metadata_of(a, reserved) is Ok,
        !a.is_init,
        a.endpoint is None,
        a.view is None,
    ensures
        metadata_of(a, reserved)->Ok_0.endpoint_name() is None,
{
}


/// The visibility of a method: init methods get the endpoint `init`;
/// `#[endpoint]` and `#[view]` give an endpoint named by the attribute, or
/// else by the method; a method with none of these is private. Where the
/// visibility is refused, the name in question is `init` or a reserved one,
/// or the attributes clash.
pub proof fn law_visibility_names(
    is_init: bool,
    endpoint: Option<Option<String>>,
    view: Option<Option<String>>,
    method_name: String,
    reserved: Seq<Seq<char>>,
)
    ensures
        ({
            let res = visibility_of_parts(is_init, endpoint, view, method_name, reserved);
            &&& is_init && endpoint is None && view is None ==> res == Ok::<
                VisibilityView,
                MetadataErrorView,
            >(VisibilityView::Endpoint("init"@))
            &&& !is_init && endpoint is None && view is None ==> res == Ok::<
                VisibilityView,
                MetadataErrorView,
            >(VisibilityView::Private)
            &&& (endpoint matches Some(Some(n)) ==> (!is_init && view is None && n@ != "init"@
                && !reserved.contains(n@) ==> res == Ok::<VisibilityView, MetadataErrorView>(
                VisibilityView::Endpoint(n@),
            )))
            &&& (endpoint matches Some(None) ==> (!is_init && view is None && method_name@ != "init"@
                && !reserved.contains(method_name@) ==> res == Ok::<
                VisibilityView,
                MetadataErrorView,
            >(VisibilityView::Endpoint(method_name@))))
            &&& (view matches Some(Some(n)) ==> (!is_init && endpoint is None && n@ != "init"@
                && !reserved.contains(n@) ==> res == Ok::<VisibilityView, MetadataErrorView>(
                VisibilityView::Endpoint(n@),
            )))
            &&& (view matches Some(None) ==> (!is_init && endpoint is None && method_name@ != "init"@
                && !reserved.contains(method_name@) ==> res == Ok::<
                VisibilityView,
                MetadataErrorView,
            >(VisibilityView::Endpoint(method_name@))))
            &&& res is Err ==> (is_init && (endpoint is Some || view is Some)) || (endpoint is Some
                && view is Some) || (!is_init && (endpoint is Some || view is Some))
        }),
{
}

/// The endpoint name read off metadata is the one its visibility gives, for
/// regular methods and storage accessors; events, callbacks and module
/// declarations get no endpoint.
pub proof fn law_endpoint_name_of_metadata(vis: VisibilityView, pay: PayableView, id: Seq<char>, bytes: Seq<u8>)
    ensures
        ({
            let name = match vis {
                VisibilityView::Endpoint(e) => Some(e),
                VisibilityView::Private => None,
            };
            &&& (MetadataView::Regular { visibility: vis, payable: pay }).endpoint_name() == name
            &&& (MetadataView::StorageGetter { visibility: vis, identifier: id }).endpoint_name() == name
            &&& (MetadataView::StorageSetter { visibility: vis, identifier: id }).endpoint_name() == name
            &&& (MetadataView::StorageMapper { visibility: vis, identifier: id }).endpoint_name() == name
            &&& (MetadataView::StorageGetMut { visibility: vis, identifier: id }).endpoint_name() == name
            &&& (MetadataView::StorageIsEmpty { visibility: vis, identifier: id }).endpoint_name() == name
            &&& (MetadataView::StorageClear { visibility: vis, identifier: id }).endpoint_name() == name
            &&& (MetadataView::LegacyEvent { identifier: bytes }).endpoint_name() is None
            &&& (MetadataView::Event { identifier: id }).endpoint_name() is None
            &&& MetadataView::Callback.endpoint_name() is None
            &&& MetadataView::CallbackRaw.endpoint_name() is None
            &&& (MetadataView::Module { impl_path: id }).endpoint_name() is None
        }),
{
}

/// A regular method reports the payable metadata its attribute gave;
/// callbacks accept any token; storage accessors other than mappers are not
/// payable; the other kinds carry no payable metadata.
pub proof fn law_payable_metadata_of_kinds(vis: VisibilityView, pay: PayableView, id: Seq<char>, bytes: Seq<u8>)
    ensures
        (MetadataView::Regular { visibility: vis, payable: pay }).payable_metadata() == pay,
        MetadataView::Callback.payable_metadata() == PayableView::AnyToken,
        MetadataView::CallbackRaw.payable_metadata() == PayableView::AnyToken,
        (MetadataView::StorageGetter { visibility: vis, identifier: id }).payable_metadata() == PayableView::NotPayable,
        (MetadataView::StorageSetter { visibility: vis, identifier: id }).payable_metadata() == PayableView::NotPayable,
        (MetadataView::StorageGetMut { visibility: vis, identifier: id }).payable_metadata() == PayableView::NotPayable,
        (MetadataView::StorageIsEmpty { visibility: vis, identifier: id }).payable_metadata() == PayableView::NotPayable,
        (MetadataView::StorageClear { visibility: vis, identifier: id }).payable_metadata() == PayableView::NotPayable,
        (MetadataView::StorageMapper { visibility: vis, identifier: id }).payable_metadata() == PayableView::NoMetadata,
        (MetadataView::LegacyEvent { identifier: bytes }).payable_metadata() == PayableView::NoMetadata,
        (MetadataView::Event { identifier: id }).payable_metadata() == PayableView::NoMetadata,
        (MetadataView::Module { impl_path: id }).payable_metadata() == PayableView::NoMetadata,
{
}

/// An accepted regular method or storage accessor gets the endpoint that its
/// attributes name: `init` for init methods, the name given in `#[endpoint]`
/// or `#[view]`, or else the method's own name; without any of these it gets
/// none. A regular method keeps the payable metadata of its attribute.
pub proof fn law_metadata_endpoint_from_attributes(a: MethodAttributes, reserved: Seq<Seq<char>>)
    requires
        metadata_of(a, reserved) is Ok,
    ensures
        ({
            let m = metadata_of(a, reserved)->Ok_0;
            let name = m.endpoint_name();
            &&& !(m is Module) && (a.is_init || a.endpoint is Some || a.view is Some) ==> name is Some
            &&& !(m is Module) && a.is_init ==> name == Some("init"@)
            &&& (a.endpoint matches Some(Some(n)) ==> (!(m is Module) && !a.is_init ==> name == Some(n@)))
            &&& (a.endpoint matches Some(None) ==> (!(m is Module) && !a.is_init ==> name == Some(a.name@)))
            &&& (a.view matches Some(Some(n)) ==> (!(m is Module) && !a.is_init && a.endpoint is None
                ==> name == Some(n@)))
            &&& (a.view matches Some(None) ==> (!(m is Module) && !a.is_init && a.endpoint is None
                ==> name == Some(a.name@)))
            &&& m is Regular ==> Some(m.payable_metadata()) == payable_of(a.payable)
        }),
{
}

/// An accepted method's kind follows its attributes, in this order of
/// precedence: a legacy event, an event, a callback (raw where
/// `#[callback_raw]` is present), a storage getter, setter, mapper, mutable
/// getter, emptiness check or clear, a module declaration, and otherwise a
/// regular method. Each carries the identifier, storage key or path that its
/// attribute gives.
pub proof fn law_metadata_kind_from_attributes(a: MethodAttributes, reserved: Seq<Seq<char>>)
    requires
        metadata_of(a, reserved) is Ok,
    ensures
        ({
            let m = metadata_of(a, reserved)->Ok_0;
            let no_event = a.legacy_event is None && a.event is None;
            let no_callback = no_event && !a.callback && !a.callback_raw;
            &&& (a.legacy_event matches Some(b) ==> m == MetadataView::LegacyEvent { identifier: b@ })
            &&& (a.event matches Some(e) ==> (a.legacy_event is None ==> m == MetadataView::Event {
                identifier: e@,
            }))
            &&& no_event && a.callback_raw ==> m == MetadataView::CallbackRaw
            &&& no_event && a.callback && !a.callback_raw ==> m == MetadataView::Callback
            &&& (a.storage_get matches Some(k) ==> (no_callback ==> (m matches MetadataView::StorageGetter {
                identifier,
                ..
            } && identifier == k@)))
            &&& (a.storage_set matches Some(k) ==> (no_callback && a.storage_get is None
                ==> (m matches MetadataView::StorageSetter { identifier, .. } && identifier == k@)))
            &&& (a.storage_mapper matches Some(k) ==> (no_callback && a.storage_get is None
                && a.storage_set is None ==> (m matches MetadataView::StorageMapper {
                identifier,
                ..
            } && identifier == k@)))
            &&& (a.storage_get_mut matches Some(k) ==> (no_callback && a.storage_get is None
                && a.storage_set is None && a.storage_mapper is None
                ==> (m matches MetadataView::StorageGetMut { identifier, .. } && identifier == k@)))
            &&& (a.storage_is_empty matches Some(k) ==> (no_callback && a.storage_get is None
                && a.storage_set is None && a.storage_mapper is None && a.storage_get_mut is None
                ==> (m matches MetadataView::StorageIsEmpty { identifier, .. } && identifier == k@)))
            &&& (a.storage_clear matches Some(k) ==> (no_callback && a.storage_get is None
                && a.storage_set is None && a.storage_mapper is None && a.storage_get_mut is None
                && a.storage_is_empty is None ==> (m matches MetadataView::StorageClear {
                identifier,
                ..
            } && identifier == k@)))
            &&& (a.module matches Some(p) ==> (no_callback && a.storage_get is None
                && a.storage_set is None && a.storage_mapper is None && a.storage_get_mut is None
                && a.storage_is_empty is None && a.storage_clear is None
                ==> m == MetadataView::Module { impl_path: p@ }))
            &&& no_callback && a.storage_get is None && a.storage_set is None && a.storage_mapper is None
                && a.storage_get_mut is None && a.storage_is_empty is None && a.storage_clear is None
                && a.module is None ==> m is Regular
        }),
{
}

/// The rules that an accepted method obeys: events are not payable, not
/// endpoints, not callbacks, storage accessors or modules, and have no body;
/// callbacks are not payable, not endpoints, storage accessors or modules,
/// are of one kind only, and have a body; storage accessors are not payable,
/// not modules, and have no body; module declarations have no body; regular
/// methods have one.
pub proof fn law_accepted_methods_obey_rules(a: MethodAttributes, reserved: Seq<Seq<char>>)
    requires
        metadata_of(a, reserved) is Ok,
    ensures
        ({
            let m = metadata_of(a, reserved)->Ok_0;
            let no_storage = a.storage_get is None && a.storage_set is None && a.storage_mapper is None
                && a.storage_get_mut is None;
            &&& (m is LegacyEvent || m is Event) ==> a.payable is None && !a.is_init && a.endpoint is None
                && a.view is None && !a.callback && !a.callback_raw && no_storage && a.module is None
                && !a.has_default
            &&& (m is Callback || m is CallbackRaw) ==> a.payable is None && !a.is_init && a.endpoint is None
                && a.view is None && no_storage && a.module is None && a.has_default && !(a.callback
                && a.callback_raw)
            &&& (m is StorageGetter || m is StorageSetter || m is StorageMapper || m is StorageGetMut
                || m is StorageIsEmpty || m is StorageClear) ==> a.payable is None && a.module is None
                && !a.has_default
            &&& m is Module ==> !a.has_default
            &&& m is Regular ==> a.has_default
        }),
{
}

/// Regular methods and callbacks have their body written in the trait;
/// events, storage accessors and module declarations do not.
pub proof fn law_has_implementation_of_kinds(vis: VisibilityView, pay: PayableView, id: Seq<char>, bytes: Seq<u8>)
    ensures
        (MetadataView::Regular { visibility: vis, payable: pay }).has_implementation(),
        MetadataView::Callback.has_implementation(),
        MetadataView::CallbackRaw.has_implementation(),
        !(MetadataView::LegacyEvent { identifier: bytes }).has_implementation(),
        !(MetadataView::Event { identifier: id }).has_implementation(),
        !(MetadataView::StorageGetter { visibility: vis, identifier: id }).has_implementation(),
        !(MetadataView::StorageSetter { visibility: vis, identifier: id }).has_implementation(),
        !(MetadataView::StorageMapper { visibility: vis, identifier: id }).has_implementation(),
        !(MetadataView::StorageGetMut { visibility: vis, identifier: id }).has_implementation(),
        !(MetadataView::StorageIsEmpty { visibility: vis, identifier: id }).has_implementation(),
        !(MetadataView::StorageClear { visibility: vis, identifier: id }).has_implementation(),
        !(MetadataView::Module { impl_path: id }).has_implementation(),
{
}

} // verus!
