//! Adding the mandatory query parameters of a deployment to a route.

use vstd::prelude::*;
use openapiv3::{Parameter, PathItem, Paths, ReferenceOr};
use crate::document::{
    append_parameters, entry_parameters, entry_with_parameters, in_place, inspect_parameter,
    is_item, keyed, keys, parameter_named, parameter_shape, parse_parameter, parsed_parameter,
    paths_with_routes, rename_parameter, replace_routes, route_entries, routes, Location,
    ParameterShape, ParameterSlot, SchemaType,
};
use crate::names::{texts, NameSet};

verus! {

/// The JSON form of the parameter that every mandatory parameter is a copy
/// of, but for its name.
pub const PARAMETER_TEMPLATE: &'static str =
    "{\"in\": \"query\", \"name\": \"TEMPLATE\", \"required\": true, \"schema\": {\"type\": \"string\"}}";

/// How an injection ended.
#[derive(Clone, Copy, Debug, PartialEq, Eq, Structural)]
pub enum InjectOutcome {
    /// The route is given in place, and one parameter for each mandatory
    /// name was added to it.
    Injected,
    /// The table has no such route. Nothing was changed; this is no error.
    RouteAbsent,
    /// The route refers to a shared definition. Nothing was changed.
    ReferenceSkipped,
    /// The template is not a required query parameter with a string schema.
    /// Nothing was changed.
    TemplateRejected,
}

impl InjectOutcome {
    /// Whether the outcome is a mismatch between what was found and what an
    /// injection needs. Such a mismatch is recoverable: the description is as
    /// it was, and can be served.
    pub open spec fn mismatch(self) -> bool {
        self is ReferenceSkipped || self is TemplateRejected
    }

    /// Whether the outcome is a mismatch; see [`InjectOutcome::mismatch`].
    pub fn is_mismatch(&self) -> (mismatch: bool)
        ensures
            mismatch == self.mismatch(),
    {
        match self {
            InjectOutcome::ReferenceSkipped | InjectOutcome::TemplateRejected => true,
            InjectOutcome::Injected | InjectOutcome::RouteAbsent => false,
        }
    }
}

/// What the library reads of a mandatory parameter named `name`: a required
/// query parameter with a string schema.
pub open spec fn mandatory_shape(name: Seq<char>) -> ParameterShape {
    ParameterShape {
        location: Location::Query,
        name,
        required: true,
        schema: SchemaType::String,
    }
}

/// Whether the copies of a parameter of this shape are mandatory parameters.
pub open spec fn usable_template(shape: ParameterShape) -> bool {
    shape.location == Location::Query && shape.required && shape.schema == SchemaType::String
}

/// One copy of `template` for each of `names`, under that name and in the
/// order of the names.
pub open spec fn copies(template: Parameter, names: Seq<Seq<char>>) -> Seq<Parameter> {
    Seq::new(names.len(), |i: int| parameter_named(template, names[i]))
}

/// Whether `parameters` are mandatory parameters for `names`, one for each
/// name and in the order of the names.
pub open spec fn mandatory_for(parameters: Seq<Parameter>, names: Seq<Seq<char>>) -> bool {
    &&& parameters.len() == names.len()
    &&& forall|i: int|
        0 <= i < names.len() ==> parameter_shape(#[trigger] parameters[i]) == mandatory_shape(
            names[i],
        )
}

/// Whether `slot` holds, in place, the mandatory parameter named `name`.
pub open spec fn is_mandatory(slot: ParameterSlot, name: Seq<char>) -> bool {
    slot matches ParameterSlot::Inline(parameter) && parameter_shape(parameter) == mandatory_shape(
        name,
    )
}

/// How many places of the parameter list `slots` hold the mandatory
/// parameter named `name`.
pub open spec fn occurrences(slots: Seq<ParameterSlot>, name: Seq<char>) -> nat {
    slots.filter(|slot: ParameterSlot| is_mandatory(slot, name)).len()
}

/// Mandatory parameters for a set of names hold the parameter of each name
/// of the set once, and none of any other name.
pub proof fn lemma_one_for_each_name(
    parameters: Seq<Parameter>,
    names: Seq<Seq<char>>,
    name: Seq<char>,
)
    requires
        mandatory_for(parameters, names),
        names.no_duplicates(),
    ensures
        occurrences(in_place(parameters), name) == if names.contains(name) {
            1nat
        } else {
            0nat
        },
    decreases names.len(),
{
    let wanted = |slot: ParameterSlot| is_mandatory(slot, name);
    if names.len() == 0 {
        assert(in_place(parameters) =~= Seq::<ParameterSlot>::empty());
        assert(!names.contains(name));
    } else {
        let last = ParameterSlot::Inline(parameters.last());
        assert(mandatory_for(parameters.drop_last(), names.drop_last())) by {
            assert forall|i: int| 0 <= i < names.drop_last().len() implies parameter_shape(
                #[trigger] parameters.drop_last()[i],
            ) == mandatory_shape(names.drop_last()[i]) by {
                assert(parameters.drop_last()[i] == parameters[i]);
            }
        }
        lemma_one_for_each_name(parameters.drop_last(), names.drop_last(), name);
        assert(in_place(parameters) =~= in_place(parameters.drop_last()).push(last));
        in_place(parameters.drop_last()).lemma_filter_push(last, wanted);
        assert(parameter_shape(parameters[names.len() - 1]) == mandatory_shape(names.last()));
        assert(wanted(last) == (names.last() == name));
        if names.last() == name {
            assert(names[names.len() - 1] == name);
            assert(!names.drop_last().contains(name)) by {
                if names.drop_last().contains(name) {
                    let k = choose|k: int|
                        0 <= k < names.drop_last().len() && names.drop_last()[k] == name;
                    assert(names[k] == names[names.len() - 1]);
                }
            }
        } else {
            assert(names.contains(name) == names.drop_last().contains(name)) by {
                if names.contains(name) {
                    let k = choose|k: int| 0 <= k < names.len() && names[k] == name;
                    assert(names.drop_last()[k] == name);
                }
                if names.drop_last().contains(name) {
                    let k = choose|k: int|
                        0 <= k < names.drop_last().len() && names.drop_last()[k] == name;
                    assert(names[k] == name);
                }
            }
        }
    }
}

/// An injection adds to the parameter list exactly one mandatory parameter
/// for every mandatory name, whatever the list held before.
pub proof fn lemma_injection_adds_one(
    before: Seq<ParameterSlot>,
    parameters: Seq<Parameter>,
    names: Seq<Seq<char>>,
)
    requires
        mandatory_for(parameters, names),
        names.no_duplicates(),
    ensures
        forall|i: int|
            0 <= i < names.len() ==> occurrences(
                before + in_place(parameters),
                #[trigger] names[i],
            ) == occurrences(before, names[i]) + 1,
{
    assert forall|i: int| 0 <= i < names.len() implies occurrences(
        before + in_place(parameters),
        #[trigger] names[i],
    ) == occurrences(before, names[i]) + 1 by {
        let wanted = |slot: ParameterSlot| is_mandatory(slot, names[i]);
        Seq::filter_distributes_over_add(before, in_place(parameters), wanted);
        lemma_one_for_each_name(parameters, names, names[i]);
    }
}

/// After an injection, the parameter list holds for every mandatory name
/// exactly one required query parameter with that name and a string schema,
/// and the parameters that it held before stand in front as they were. This
/// holds of a list that held no mandatory parameter of these names before.
pub proof fn lemma_injected_once(
    before: Seq<ParameterSlot>,
    parameters: Seq<Parameter>,
    names: Seq<Seq<char>>,
)
    requires
        mandatory_for(parameters, names),
        names.no_duplicates(),
        forall|i: int| 0 <= i < names.len() ==> occurrences(before, #[trigger] names[i]) == 0,
    ensures
        forall|i: int|
            0 <= i < names.len() ==> occurrences(
                before + in_place(parameters),
                #[trigger] names[i],
            ) == 1,
        (before + in_place(parameters)).len() == before.len() + names.len(),
        (before + in_place(parameters)).subrange(0, before.len() as int) == before,
{
    lemma_injection_adds_one(before, parameters, names);
    assert((before + in_place(parameters)).subrange(0, before.len() as int) =~= before);
}

/// Injection is not idempotent: a second injection into the same parameter
/// list adds the mandatory parameters a second time. The list then holds two
/// more of them for every mandatory name than it held at first, so two for
/// every name where it held none; it has grown by twice the number of names;
/// and the list that the first injection left stands in front as it was.
pub proof fn lemma_injected_twice(
    before: Seq<ParameterSlot>,
    first: Seq<Parameter>,
    second: Seq<Parameter>,
    names: Seq<Seq<char>>,
)
    requires
        mandatory_for(first, names),
        mandatory_for(second, names),
        names.no_duplicates(),
    ensures
        forall|i: int|
            0 <= i < names.len() ==> occurrences(
                before + in_place(first) + in_place(second),
                #[trigger] names[i],
            ) == occurrences(before, names[i]) + 2,
        forall|i: int|
            0 <= i < names.len() && occurrences(before, #[trigger] names[i]) == 0 ==> occurrences(
                before + in_place(first) + in_place(second),
                names[i],
            ) == 2,
        (before + in_place(first) + in_place(second)).len() == before.len() + 2 * names.len(),
        (before + in_place(first) + in_place(second)).subrange(
            0,
            (before + in_place(first)).len() as int,
        ) == before + in_place(first),
{
    lemma_injection_adds_one(before, first, names);
    lemma_injection_adds_one(before + in_place(first), second, names);
    assert((before + in_place(first) + in_place(second)).subrange(
        0,
        (before + in_place(first)).len() as int,
    ) =~= before + in_place(first));
}

/// How injecting copies of `template` into `entry` ends.
pub open spec fn entry_outcome(
    entry: ReferenceOr<PathItem>,
    template: Option<Parameter>,
) -> InjectOutcome {
    if entry_parameters(entry) is None {
        InjectOutcome::ReferenceSkipped
    } else if template is Some && usable_template(parameter_shape(template->0)) {
        InjectOutcome::Injected
    } else {
        InjectOutcome::TemplateRejected
    }
}

/// The entry that injecting copies of `template` into `entry` for `names`
/// leaves.
pub open spec fn injected_entry(
    entry: ReferenceOr<PathItem>,
    template: Option<Parameter>,
    names: Seq<Seq<char>>,
) -> ReferenceOr<PathItem> {
    if entry_outcome(entry, template) is Injected {
        entry_with_parameters(entry, copies(template->0, names))
    } else {
        entry
    }
}

/// One copy of `template` for each mandatory name.
fn mandatory_copies(template: &Parameter, reqs: &NameSet) -> (parameters: Vec<Parameter>)
    requires
        usable_template(parameter_shape(*template)),
    ensures
        parameters@ == copies(*template, reqs@),
        mandatory_for(parameters@, reqs@),
        reqs@.no_duplicates(),
{
    let names = reqs.names();
    let mut parameters: Vec<Parameter> = Vec::new();
    let mut i: usize = 0;
    while i < names.len()
        invariant
            i <= names@.len(),
            texts(names@) == reqs@,
            usable_template(parameter_shape(*template)),
            parameters@.len() == i,
            forall|j: int|
                0 <= j < i ==> (#[trigger] parameters@[j]) == parameter_named(
                    *template,
                    names@[j]@,
                ) && parameter_shape(parameters@[j]) == mandatory_shape(names@[j]@),
        decreases names@.len() - i,
    {
        let parameter = rename_parameter(template, names[i].as_str());
        parameters.push(parameter);
        i += 1;
    }
    assert(parameters@ =~= copies(*template, reqs@));
    parameters
}

/// Adds to the route entry `path` one copy of `template` for each mandatory
/// name, under that name, at the end of its parameter list and in the order
/// of the names. An entry that refers to a shared definition is left as it
/// is, and so is every entry where `template` is not a required query
/// parameter with a string schema. Parameters that the entry has already are
/// kept as they are, also those of the same name.
pub fn add_parameters(
    path: &mut ReferenceOr<PathItem>,
    template: &Parameter,
    reqs: &NameSet,
) -> (outcome: InjectOutcome)
    ensures
        outcome == entry_outcome(*old(path), Some(*template)),
        *final(path) == injected_entry(*old(path), Some(*template), reqs@),
        outcome is Injected ==> entry_parameters(*final(path)) == Some(
            entry_parameters(*old(path))->0 + in_place(copies(*template, reqs@)),
        ) && mandatory_for(copies(*template, reqs@), reqs@),
        outcome is Injected ==> forall|i: int|
            0 <= i < reqs@.len() ==> occurrences(
                entry_parameters(*final(path))->0,
                #[trigger] reqs@[i],
            ) == occurrences(entry_parameters(*old(path))->0, reqs@[i]) + 1,
{
    if !is_item(path) {
        return InjectOutcome::ReferenceSkipped;
    }
    let facts = inspect_parameter(template);
    if facts.location == Location::Query && facts.required && facts.schema == SchemaType::String {
        let parameters = mandatory_copies(template, reqs);
        proof {
            lemma_injection_adds_one(entry_parameters(*path)->0, parameters@, reqs@);
        }
        append_parameters(path, parameters);
        InjectOutcome::Injected
    } else {
        InjectOutcome::TemplateRejected
    }
}

/// Adds the mandatory parameters `reqs` to the route entry `path`: for each
/// name one required query parameter with a string schema, made from
/// [`PARAMETER_TEMPLATE`].
pub fn add_mandatory_params(path: &mut ReferenceOr<PathItem>, reqs: &NameSet) -> (outcome:
    InjectOutcome)
    ensures
        outcome == entry_outcome(*old(path), parsed_parameter(PARAMETER_TEMPLATE@)),
        *final(path) == injected_entry(*old(path), parsed_parameter(PARAMETER_TEMPLATE@), reqs@),
        outcome is Injected ==> entry_parameters(*final(path)) == Some(
            entry_parameters(*old(path))->0 + in_place(
                copies(parsed_parameter(PARAMETER_TEMPLATE@)->0, reqs@),
            ),
        ) && mandatory_for(copies(parsed_parameter(PARAMETER_TEMPLATE@)->0, reqs@), reqs@),
        outcome is Injected ==> forall|i: int|
            0 <= i < reqs@.len() ==> occurrences(
                entry_parameters(*final(path))->0,
                #[trigger] reqs@[i],
            ) == occurrences(entry_parameters(*old(path))->0, reqs@[i]) + 1,
{
    if !is_item(path) {
        return InjectOutcome::ReferenceSkipped;
    }
    match parse_parameter(PARAMETER_TEMPLATE) {
        Ok(template) => add_parameters(path, &template, reqs),
        Err(_) => InjectOutcome::TemplateRejected,
    }
}

/// How injecting copies of `template` at the route `route_key` of the routes
/// `entries` ends.
pub open spec fn table_outcome(
    entries: Seq<(Seq<char>, ReferenceOr<PathItem>)>,
    route_key: Seq<char>,
    template: Option<Parameter>,
) -> InjectOutcome {
    if keys(entries).contains(route_key) {
        entry_outcome(entries[keys(entries).index_of(route_key)].1, template)
    } else {
        InjectOutcome::RouteAbsent
    }
}

/// The routes that injecting copies of `template` for `names` at the route
/// `route_key` of `entries` leaves: the entry under `route_key` with the
/// copies added, every other route as it was.
pub open spec fn injected_routes(
    entries: Seq<(Seq<char>, ReferenceOr<PathItem>)>,
    route_key: Seq<char>,
    template: Option<Parameter>,
    names: Seq<Seq<char>>,
) -> Seq<(Seq<char>, ReferenceOr<PathItem>)> {
    Seq::new(
        entries.len(),
        |i: int|
            if entries[i].0 == route_key {
                (entries[i].0, injected_entry(entries[i].1, template, names))
            } else {
                entries[i]
            },
    )
}

/// The table that injecting copies of `template` for `names` at the route
/// `route_key` of `paths` leaves.
pub open spec fn injected_paths(
    paths: Paths,
    route_key: Seq<char>,
    template: Option<Parameter>,
    names: Seq<Seq<char>>,
) -> Paths {
    if table_outcome(routes(paths), route_key, template) is Injected {
        paths_with_routes(paths, injected_routes(routes(paths), route_key, template, names))
    } else {
        paths
    }
}

/// The place of the route `route_key` among `entries`, if it is there.
pub fn find_route<V>(entries: &Vec<(String, V)>, route_key: &str) -> (found: Option<usize>)
    ensures
        match found {
            Some(i) => i < entries@.len() && entries@[i as int].0@ == route_key@ && forall|j: int|
                0 <= j < i ==> (#[trigger] entries@[j]).0@ != route_key@,
            None => !keys(keyed(entries@)).contains(route_key@),
        },
{
    let wanted = route_key.to_owned();
    let mut i: usize = 0;
    while i < entries.len()
        invariant
            i <= entries@.len(),
            wanted@ == route_key@,
            forall|j: int| 0 <= j < i ==> (#[trigger] entries@[j]).0@ != route_key@,
        decreases entries@.len() - i,
    {
        if entries[i].0 == wanted {
            return Some(i);
        }
        i += 1;
    }
    assert forall|j: int| 0 <= j < keys(keyed(entries@)).len() implies keys(keyed(entries@))[j]
        != route_key@ by {
        assert(entries@[j].0@ != route_key@);
    }
    None
}

/// Adds the mandatory parameters `reqs` to the route `route_key` of the
/// table `paths`.
///
/// Where the table has no such route, nothing is changed, and that is no
/// error. Where the route refers to a shared definition, nothing is changed,
/// and the outcome says so. Otherwise the route gets, at the end of its
/// parameter list, one required query parameter with a string schema for each
/// mandatory name. No other route is touched, and no route path changes.
///
/// A second injection into the same table adds the parameters a second
/// time: inject only into a table that was freshly derived from the template.
pub fn inject(paths: &mut Paths, route_key: &str, reqs: &NameSet) -> (outcome: InjectOutcome)
    ensures
        outcome == table_outcome(
            routes(*old(paths)),
            route_key@,
            parsed_parameter(PARAMETER_TEMPLATE@),
        ),
        *final(paths) == injected_paths(
            *old(paths),
            route_key@,
            parsed_parameter(PARAMETER_TEMPLATE@),
            reqs@,
        ),
        routes(*final(paths)) == injected_routes(
            routes(*old(paths)),
            route_key@,
            parsed_parameter(PARAMETER_TEMPLATE@),
            reqs@,
        ),
        !(outcome is Injected) ==> *final(paths) == *old(paths),
        keys(routes(*final(paths))) == keys(routes(*old(paths))),
        outcome is Injected ==> mandatory_for(
            copies(parsed_parameter(PARAMETER_TEMPLATE@)->0, reqs@),
            reqs@,
        ),
        outcome is Injected ==> forall|i: int|
            0 <= i < routes(*old(paths)).len() && (#[trigger] routes(*old(paths))[i]).0
                == route_key@ ==> entry_parameters(routes(*final(paths))[i].1) == Some(
                entry_parameters(routes(*old(paths))[i].1)->0 + in_place(
                    copies(parsed_parameter(PARAMETER_TEMPLATE@)->0, reqs@),
                ),
            ),
        outcome is Injected ==> forall|i: int, n: int|
            0 <= i < routes(*old(paths)).len() && (#[trigger] routes(*old(paths))[i]).0
                == route_key@ && 0 <= n < reqs@.len() ==> occurrences(
                entry_parameters(routes(*final(paths))[i].1)->0,
                #[trigger] reqs@[n],
            ) == occurrences(entry_parameters(routes(*old(paths))[i].1)->0, reqs@[n]) + 1,
        !keys(routes(*old(paths))).contains(route_key@) ==> outcome is RouteAbsent
            && !outcome.mismatch() && *final(paths) == *old(paths),
        forall|i: int|
            0 <= i < routes(*old(paths)).len() && (#[trigger] routes(*old(paths))[i]).0
                == route_key@ && entry_parameters(routes(*old(paths))[i].1) is None
                ==> outcome is ReferenceSkipped && outcome.mismatch() && *final(paths) == *old(
                paths,
            ),
{
    let mut entries = route_entries(paths);
    let ghost before = routes(*paths);
    let ghost template = parsed_parameter(PARAMETER_TEMPLATE@);
    match find_route(&entries, route_key) {
        None => {
            assert forall|j: int| 0 <= j < before.len() implies (#[trigger] before[j]).0
                != route_key@ by {
                assert(keys(before)[j] == before[j].0);
            }
            assert(before =~= injected_routes(before, route_key@, template, reqs@));
            InjectOutcome::RouteAbsent
        },
        Some(i) => {
            proof {
                let at = keys(before).index_of(route_key@);
                assert(keys(before)[i as int] == route_key@);
                assert(keys(before)[at] == route_key@);
                assert(at == i);
                assert forall|j: int|
                    0 <= j < before.len() && (#[trigger] before[j]).0 == route_key@ implies j
                    == i by {
                    assert(keys(before)[j] == before[j].0);
                }
            }
            let (path, mut entry) = entries.remove(i);
            let outcome = add_mandatory_params(&mut entry, reqs);
            if outcome == InjectOutcome::Injected {
                entries.insert(i, (path, entry));
                let ghost after = injected_routes(before, route_key@, template, reqs@);
                assert(keyed(entries@) =~= after) by {
                    assert forall|j: int| 0 <= j < before.len() implies #[trigger] keyed(
                        entries@,
                    )[j] == after[j] by {
                        if j != i {
                            assert(keys(before)[j] != keys(before)[i as int]);
                        }
                    }
                }
                assert(keys(keyed(entries@)) =~= keys(before));
                replace_routes(paths, entries);
            } else {
                assert(before =~= injected_routes(before, route_key@, template, reqs@));
            }
            outcome
        },
    }
}

} // verus!
