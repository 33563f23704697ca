//! Variant factories and the registry that holds them.

use std::sync::Arc;

use vstd::prelude::*;

use crate::table;
use crate::table::Table;
use crate::variant::color::Color;
use crate::variant::error::GameError;
use crate::variant::json::{Json, JsonView};
use crate::variant::session::GameSession;

verus! {

/// Type-erased options for a new game; `null` selects a variant's defaults.
#[derive(Debug, PartialEq, Eq)]
pub struct VariantOptions {
    value: Json,
}

impl VariantOptions {
    /// The JSON value of the options.
    pub closed spec fn view(self) -> JsonView {
        self.value@
    }

    /// Wraps a JSON value.
    #[must_use]
    pub fn new(value: Json) -> (r: Self)
        ensures
            r@ == value@,
    {
        VariantOptions { value }
    }

    /// Wraps the JSON form of typed options, or reports why they have none.
    pub fn from_typed(encoded: Result<Json, String>) -> (r: Result<Self, GameError>)
        ensures
            match encoded {
                Ok(v) => r is Ok && r->Ok_0@ == v@,
                Err(e) => r == Err::<VariantOptions, GameError>(GameError::Serialization(e)),
            },
    {
        match encoded {
            Ok(value) => Ok(VariantOptions { value }),
            Err(e) => Err(GameError::Serialization(e)),
        }
    }

    /// Recovers typed options with `decode`, or reports why the value has not
    /// their shape.
    pub fn to_typed<T, F: Fn(&Json) -> Result<T, String>>(&self, decode: F) -> (r: Result<
        T,
        GameError,
    >)
        requires
            forall|v: &Json| v@ == self@ ==> #[trigger] decode.requires((v,)),
        ensures
            exists|v: &Json, d: Result<T, String>|
                v@ == self@ && #[trigger] decode.ensures((v,), d) && r == match d {
                    Ok(t) => Ok::<T, GameError>(t),
                    Err(e) => Err::<T, GameError>(GameError::Serialization(e)),
                },
    {
        match decode(&self.value) {
            Ok(t) => Ok(t),
            Err(e) => Err(GameError::Serialization(e)),
        }
    }

    /// The wrapped JSON value.
    #[must_use]
    pub fn as_value(&self) -> (r: &Json)
        ensures
            r@ == self@,
    {
        &self.value
    }
}

impl Default for VariantOptions {
    /// No options at all: `null`.
    fn default() -> (r: Self)
        ensures
            r@ is Null,
    {
        VariantOptions { value: Json::Null }
    }
}

impl Clone for VariantOptions {
    fn clone(&self) -> (r: Self)
        ensures
            r@ == self@,
    {
        VariantOptions { value: self.value.clone() }
    }
}

/// Creates games of one variant.
///
/// The specification functions name what the methods report. Their default
/// definitions say nothing of a factory: a verified one gives its own.
pub trait VariantFactory: Send + Sync {
    /// What `id` reports.
    closed spec fn ident(&self) -> Seq<char> {
        arbitrary()
    }

    /// What `display_name` reports.
    closed spec fn title(&self) -> Seq<char> {
        arbitrary()
    }

    /// Whether `new_game` may answer `options` with `answer`.
    closed spec fn answers(
        &self,
        options: JsonView,
        answer: Result<Box<dyn GameSession>, GameError>,
    ) -> bool {
        arbitrary()
    }

    /// The identifier the variant is registered under, such as `standard`.
    fn id(&self) -> (r: &'static str)
        ensures
            r@ == self.ident(),
    ;

    /// A name for people, such as `Standard Chess`.
    fn display_name(&self) -> (r: &str)
        ensures
            r@ == self.title(),
    ;

    /// Creates a game configured by `options`, or refuses them. A new game is of
    /// the factory's variant with these options, and no action has been played in
    /// it.
    fn new_game(&self, options: &VariantOptions) -> (r: Result<Box<dyn GameSession>, GameError>)
        ensures
            self.answers(options@, r),
            r is Ok ==> r->Ok_0.variant_name() == self.ident(),
            r is Ok ==> r->Ok_0.setup() == options@,
            r is Ok ==> r->Ok_0.played() == Seq::<(Color, JsonView)>::empty(),
    ;
}

/// Shares a value through `Arc::clone`, which hands out another pointer to the
/// same value.
#[verifier::external_body]
fn share<T: ?Sized>(shared: &Arc<T>) -> (r: Arc<T>)
    ensures
        r == *shared,
{
    Arc::clone(shared)
}

/// The factories of every supported variant, by identifier.
pub struct VariantRegistry {
    factories: Table<Arc<dyn VariantFactory>>,
}

impl VariantRegistry {
    /// The factory registered under `id`.
    pub closed spec fn registered(self, id: Seq<char>) -> Option<Arc<dyn VariantFactory>> {
        self.factories.at(id)
    }

    /// Creates an empty registry.
    #[must_use]
    pub fn new() -> (r: Self)
        ensures
            forall|id: Seq<char>| r.registered(id) is None,
    {
        VariantRegistry { factories: Table::new() }
    }

    /// Registers `factory` under its identifier and hands back the factory that
    /// was registered there before.
    pub fn register(&mut self, factory: Arc<dyn VariantFactory>) -> (r: Option<
        Arc<dyn VariantFactory>,
    >)
        ensures
            r == old(self).registered(factory.ident()),
            final(self).registered(factory.ident()) is Some,
            final(self).registered(factory.ident())->0 == factory,
            forall|id: Seq<char>|
                id != factory.ident() ==> #[trigger] final(self).registered(id) == old(
                    self,
                ).registered(id),
    {
        let id = factory.id();
        let replaced = table::put(factory, id, &mut self.factories);
        replaced
    }

    /// The factory registered under `id`, if any.
    #[must_use]
    pub fn get(&self, id: &str) -> (r: Option<Arc<dyn VariantFactory>>)
        ensures
            r == self.registered(id@),
    {
        match self.factories.find(id) {
            Some(factory) => {
                let found = Some(share(factory));
                found
            },
            None => None,
        }
    }

    /// The identifiers of all registered variants, each once.
    #[must_use]
    pub fn ids(&self) -> (r: Vec<&'static str>)
        ensures
            forall|id: Seq<char>|
                #[trigger] self.registered(id) is Some <==> exists|i: int|
                    0 <= i < r@.len() && (#[trigger] r@[i])@ == id,
            forall|i: int, j: int|
                0 <= i < j < r@.len() ==> (#[trigger] r@[i])@ != (#[trigger] r@[j])@,
    {
        self.factories.keys()
    }

    /// Creates a game of the variant registered under `id`: an unknown
    /// identifier is an error, and otherwise the variant's factory decides. A new
    /// game is of that variant with these options and has no action played.
    pub fn new_game(&self, id: &str, options: &VariantOptions) -> (r: Result<
        Box<dyn GameSession>,
        GameError,
    >)
        ensures
            self.registered(id@) is None ==> (r matches Err(GameError::UnknownVariant(s)) && s@
                == id@),
            self.registered(id@) is Some ==> self.registered(id@)->0.answers(options@, r),
            r is Ok ==> r->Ok_0.variant_name() == self.registered(id@)->0.ident(),
            r is Ok ==> r->Ok_0.setup() == options@,
            r is Ok ==> r->Ok_0.played() == Seq::<(Color, JsonView)>::empty(),
    {
        match self.factories.find(id) {
            Some(factory) => factory.new_game(options),
            None => Err(GameError::UnknownVariant(id.to_owned())),
        }
    }
}

impl Default for VariantRegistry {
    /// An empty registry.
    fn default() -> (r: Self)
        ensures
            forall|id: Seq<char>| r.registered(id) is None,
    {
        VariantRegistry::new()
    }
}

/// A game is created by the factory that is found under the identifier, with the options
/// that were asked for; where none is found the error names the identifier.
pub proof fn games_come_from_the_variant_found(
    registry: VariantRegistry,
    id: &str,
    options: VariantOptions,
    found: Option<Arc<dyn VariantFactory>>,
    r: Result<Box<dyn GameSession>, GameError>,
)
    requires
        call_ensures(VariantRegistry::get, (&registry, id), found),
        call_ensures(VariantRegistry::new_game, (&registry, id, &options), r),
    ensures
        found is None ==> (r matches Err(GameError::UnknownVariant(s)) && s@ == id@),
        found is Some ==> found->0.answers(options@, r),
        r is Ok ==> found is Some && r->Ok_0.variant_name() == found->0.ident(),
        r is Ok ==> r->Ok_0.setup() == options@ && r->Ok_0.played().len() == 0,
{
}

/// Options hold the value they were made of, or report why there is none.
pub proof fn options_hold_their_value(
    value: Json,
    options: VariantOptions,
    back: &Json,
    encoded: Result<Json, String>,
    r: Result<VariantOptions, GameError>,
)
    requires
        call_ensures(VariantOptions::new, (value,), options),
        call_ensures(VariantOptions::as_value, (&options,), back),
        call_ensures(VariantOptions::from_typed, (encoded,), r),
    ensures
        back@ == value@,
        encoded matches Ok(v) ==> r is Ok && r->Ok_0@ == v@,
        encoded matches Err(e) ==> (r matches Err(GameError::Serialization(m)) && m@ == e@),
{
}

/// A registered variant is the one that is found under its identifier, in place of any
/// that was registered there before, which is handed back; the others stay.
pub proof fn the_last_registered_variant_is_found(
    args: (&mut VariantRegistry, Arc<dyn VariantFactory>),
    replaced: Option<Arc<dyn VariantFactory>>,
    id: Seq<char>,
)
    requires
        call_ensures(VariantRegistry::register, args, replaced),
    ensures
        final(args.0).registered(args.1.ident()) is Some,
        final(args.0).registered(args.1.ident())->0 == args.1,
        replaced == old(args.0).registered(args.1.ident()),
        id != args.1.ident() ==> final(args.0).registered(id) == old(args.0).registered(id),
{
}

} // verus!
