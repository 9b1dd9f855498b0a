//! Lowering a manifest document into the intermediate representation: enums
//! and objects first, then the symbol table of their names, then features,
//! whose variables fall back to that table when their type string is not a
//! built-in constructor.

use vstd::prelude::*;

use crate::error::{ErrorModel, FMLError};
use crate::frontend::{
    EnumBody, EnumBodyModel, FeatureBody, FeatureBodyModel, FeatureVariable, FeatureVariableBody,
    FeatureVariableBodyModel, ManifestFrontEnd, ManifestFrontEndModel, ObjectBody,
    ObjectBodyModel, ObjectFieldBody, ObjectFieldBodyModel,
};
use crate::ir::{
    EnumDef, EnumModel, FeatureDef, FeatureManifest, FeatureManifestModel, FeatureModel,
    ObjectDef, ObjectModel, PropDef, PropModel, VariantDef, VariantModel,
};
use crate::symbols::SymbolTable;
use crate::types::{resolve_type, TypeModel, TypeRef};
use crate::values::{Value, ValueModel};

verus! {

/// The default a property carries: the authored value, or `Null` when the
/// document supplied none.
pub open spec fn default_or_null(o: Option<ValueModel>) -> ValueModel {
    match o {
        Some(v) => v,
        None => ValueModel::Null,
    }
}

/// Model of lowering one declared enum.
pub open spec fn lower_enum(name: Seq<char>, b: EnumBodyModel) -> EnumModel {
    EnumModel {
        name: name,
        doc: b.description,
        variants: b.variants.map_values(
            |p: (Seq<char>, crate::frontend::EnumVariantBodyModel)|
                VariantModel { name: p.0, doc: p.1.description },
        ),
    }
}

/// Model of lowering every declared enum, in declaration order.
pub open spec fn lower_enums(es: Seq<(Seq<char>, EnumBodyModel)>) -> Seq<EnumModel> {
    es.map_values(|p: (Seq<char>, EnumBodyModel)| lower_enum(p.0, p.1))
}

/// Model of lowering one object field: its type string is resolved directly,
/// with no symbol-table fallback.
pub open spec fn lower_field(name: Seq<char>, f: ObjectFieldBodyModel) -> Result<
    PropModel,
    ErrorModel,
> {
    match resolve_type(f.variable_type) {
        Ok(t) => Ok(
            PropModel {
                name: name,
                doc: f.description,
                typ: t,
                default: default_or_null(f.default),
            },
        ),
        Err(e) => Err(e),
    }
}

/// Model of lowering an object's fields in order; the first failure wins.
pub open spec fn lower_fields(fs: Seq<(Seq<char>, ObjectFieldBodyModel)>) -> Result<
    Seq<PropModel>,
    ErrorModel,
>
    decreases fs.len(),
{
    if fs.len() == 0 {
        Ok(Seq::empty())
    } else {
        match lower_field(fs[0].0, fs[0].1) {
            Ok(p) => match lower_fields(fs.drop_first()) {
                Ok(ps) => Ok(seq![p] + ps),
                Err(e) => Err(e),
            },
            Err(e) => Err(e),
        }
    }
}

/// Model of lowering one declared object.
pub open spec fn lower_object(name: Seq<char>, b: ObjectBodyModel) -> Result<
    ObjectModel,
    ErrorModel,
> {
    match lower_fields(b.fields) {
        Ok(ps) => Ok(ObjectModel { name: name, doc: b.description, props: ps }),
        Err(e) => Err(e),
    }
}

/// Model of lowering every declared object, in declaration order; the first
/// failure wins.
pub open spec fn lower_objects(os: Seq<(Seq<char>, ObjectBodyModel)>) -> Result<
    Seq<ObjectModel>,
    ErrorModel,
>
    decreases os.len(),
{
    if os.len() == 0 {
        Ok(Seq::empty())
    } else {
        match lower_object(os[0].0, os[0].1) {
            Ok(o) => match lower_objects(os.drop_first()) {
                Ok(rest) => Ok(seq![o] + rest),
                Err(e) => Err(e),
            },
            Err(e) => Err(e),
        }
    }
}

/// Registering every lowered enum name, in order.
pub open spec fn insert_enums(m: Map<Seq<char>, TypeModel>, es: Seq<EnumModel>) -> Map<
    Seq<char>,
    TypeModel,
>
    decreases es.len(),
{
    if es.len() == 0 {
        m
    } else {
        insert_enums(m.insert(es[0].name, TypeModel::Enum(es[0].name)), es.drop_first())
    }
}

/// Registering every lowered object name, in order.
pub open spec fn insert_objects(m: Map<Seq<char>, TypeModel>, os: Seq<ObjectModel>) -> Map<
    Seq<char>,
    TypeModel,
>
    decreases os.len(),
{
    if os.len() == 0 {
        m
    } else {
        insert_objects(m.insert(os[0].name, TypeModel::Object(os[0].name)), os.drop_first())
    }
}

/// The symbol table a manifest induces: every enum name, then every object
/// name, later entries overriding earlier ones.
pub open spec fn symbol_map(es: Seq<EnumModel>, os: Seq<ObjectModel>) -> Map<
    Seq<char>,
    TypeModel,
> {
    insert_objects(insert_enums(Map::empty(), es), os)
}

proof fn lemma_insert_enums(m: Map<Seq<char>, TypeModel>, es: Seq<EnumModel>, n: Seq<char>)
    ensures
        insert_enums(m, es).contains_key(n) == (m.contains_key(n) || exists|i: int|
            0 <= i < es.len() && es[i].name == n),
        (exists|i: int| 0 <= i < es.len() && es[i].name == n) ==> insert_enums(m, es)[n]
            == TypeModel::Enum(n),
        (!exists|i: int| 0 <= i < es.len() && es[i].name == n) && m.contains_key(n)
            ==> insert_enums(m, es)[n] == m[n],
    decreases es.len(),
{
    if es.len() > 0 {
        lemma_insert_enums(m.insert(es[0].name, TypeModel::Enum(es[0].name)), es.drop_first(), n);
        assert forall|i: int| 0 <= i < es.len() && es[i].name == n && i > 0 implies exists|j: int|
            0 <= j < es.drop_first().len() && es.drop_first()[j].name == n by {
            assert(es.drop_first()[i - 1].name == n);
        }
    }
}

proof fn lemma_insert_objects(m: Map<Seq<char>, TypeModel>, os: Seq<ObjectModel>, n: Seq<char>)
    ensures
        insert_objects(m, os).contains_key(n) == (m.contains_key(n) || exists|i: int|
            0 <= i < os.len() && os[i].name == n),
        (exists|i: int| 0 <= i < os.len() && os[i].name == n) ==> insert_objects(m, os)[n]
            == TypeModel::Object(n),
        (!exists|i: int| 0 <= i < os.len() && os[i].name == n) && m.contains_key(n)
            ==> insert_objects(m, os)[n] == m[n],
    decreases os.len(),
{
    if os.len() > 0 {
        lemma_insert_objects(
            m.insert(os[0].name, TypeModel::Object(os[0].name)),
            os.drop_first(),
            n,
        );
        assert forall|i: int| 0 <= i < os.len() && os[i].name == n && i > 0 implies exists|j: int|
            0 <= j < os.drop_first().len() && os.drop_first()[j].name == n by {
            assert(os.drop_first()[i - 1].name == n);
        }
    }
}

/// What the symbol table holds: exactly the declared names. A name declared
/// as an object maps to `Object(name)`; one declared only as an enum maps to
/// `Enum(name)`. Together with `lower_variable` this is the fallback that a
/// feature variable's type string reaches when it is not a built-in
/// constructor: a declared name resolves to its reference, an undeclared one
/// is rejected with `UnknownUserType`.
pub proof fn lemma_symbol_map(es: Seq<EnumModel>, os: Seq<ObjectModel>, n: Seq<char>)
    ensures
        symbol_map(es, os).contains_key(n) == ((exists|i: int|
            0 <= i < es.len() && es[i].name == n) || (exists|i: int|
            0 <= i < os.len() && os[i].name == n)),
        (exists|i: int| 0 <= i < os.len() && os[i].name == n) ==> symbol_map(es, os)[n]
            == TypeModel::Object(n),
        (exists|i: int| 0 <= i < es.len() && es[i].name == n) && (!exists|i: int|
            0 <= i < os.len() && os[i].name == n) ==> symbol_map(es, os)[n] == TypeModel::Enum(n),
{
    lemma_insert_enums(Map::empty(), es, n);
    lemma_insert_objects(insert_enums(Map::empty(), es), os, n);
}

/// Model of lowering one feature variable: the type string is resolved as a
/// type expression; if that fails, it is looked up verbatim among the
/// declared names, and an unknown name is rejected with `UnknownUserType`.
pub open spec fn lower_variable(
    name: Seq<char>,
    v: FeatureVariableBodyModel,
    syms: Map<Seq<char>, TypeModel>,
) -> Result<PropModel, ErrorModel> {
    let prop = |t: TypeModel| PropModel {
        name: name,
        doc: v.description,
        typ: t,
        default: default_or_null(v.default),
    };
    match resolve_type(v.variable_type) {
        Ok(t) => Ok(prop(t)),
        Err(e) => if syms.contains_key(v.variable_type) {
            Ok(prop(syms[v.variable_type]))
        } else {
            Err(ErrorModel::UnknownUserType(v.variable_type))
        },
    }
}

/// A feature variable whose type string is a plain name and not a built-in
/// constructor resolves through the declared names alone: to `Object(name)`
/// when an object of that name is declared, otherwise to `Enum(name)` when
/// an enum is, and to the recoverable `UnknownUserType` error when neither
/// is.
pub proof fn lemma_feature_variable_fallback(
    name: Seq<char>,
    v: FeatureVariableBodyModel,
    es: Seq<EnumModel>,
    os: Seq<ObjectModel>,
)
    requires
        crate::nesting::plain_seq(v.variable_type),
        !crate::types::primitive_name(v.variable_type),
        v.variable_type != "BundleText"@,
        v.variable_type != "BundleImage"@,
        v.variable_type != "Enum"@,
        v.variable_type != "Object"@,
        v.variable_type != "List"@,
        v.variable_type != "Option"@,
        v.variable_type != "Map"@,
    ensures
        (exists|i: int| 0 <= i < os.len() && os[i].name == v.variable_type) ==> lower_variable(
            name,
            v,
            symbol_map(es, os),
        ) == Ok::<PropModel, ErrorModel>(
            PropModel {
                name: name,
                doc: v.description,
                typ: TypeModel::Object(v.variable_type),
                default: default_or_null(v.default),
            },
        ),
        (!exists|i: int| 0 <= i < os.len() && os[i].name == v.variable_type) && (exists|i: int|
            0 <= i < es.len() && es[i].name == v.variable_type) ==> lower_variable(
            name,
            v,
            symbol_map(es, os),
        ) == Ok::<PropModel, ErrorModel>(
            PropModel {
                name: name,
                doc: v.description,
                typ: TypeModel::Enum(v.variable_type),
                default: default_or_null(v.default),
            },
        ),
        (!exists|i: int| 0 <= i < os.len() && os[i].name == v.variable_type) && (!exists|i: int|
            0 <= i < es.len() && es[i].name == v.variable_type) ==> lower_variable(
            name,
            v,
            symbol_map(es, os),
        ) == Err::<PropModel, ErrorModel>(ErrorModel::UnknownUserType(v.variable_type)),
{
    crate::nesting::lemma_resolve_plain_name(v.variable_type);
    lemma_symbol_map(es, os, v.variable_type);
}

/// Model of lowering a feature's variables in order; the first failure wins.
pub open spec fn lower_variables(
    vs: Seq<(Seq<char>, FeatureVariableBodyModel)>,
    syms: Map<Seq<char>, TypeModel>,
) -> Result<Seq<PropModel>, ErrorModel>
    decreases vs.len(),
{
    if vs.len() == 0 {
        Ok(Seq::empty())
    } else {
        match lower_variable(vs[0].0, vs[0].1, syms) {
            Ok(p) => match lower_variables(vs.drop_first(), syms) {
                Ok(ps) => Ok(seq![p] + ps),
                Err(e) => Err(e),
            },
            Err(e) => Err(e),
        }
    }
}

/// Model of lowering one declared feature. The feature-level default is kept
/// exactly when the document supplied one.
pub open spec fn lower_feature(
    name: Seq<char>,
    b: FeatureBodyModel,
    syms: Map<Seq<char>, TypeModel>,
) -> Result<FeatureModel, ErrorModel> {
    match lower_variables(b.variables, syms) {
        Ok(ps) => Ok(
            FeatureModel { name: name, doc: b.description, props: ps, default: b.default },
        ),
        Err(e) => Err(e),
    }
}

/// Model of lowering every declared feature, in declaration order; the first
/// failure wins.
pub open spec fn lower_features(
    fs: Seq<(Seq<char>, FeatureBodyModel)>,
    syms: Map<Seq<char>, TypeModel>,
) -> Result<Seq<FeatureModel>, ErrorModel>
    decreases fs.len(),
{
    if fs.len() == 0 {
        Ok(Seq::empty())
    } else {
        match lower_feature(fs[0].0, fs[0].1, syms) {
            Ok(f) => match lower_features(fs.drop_first(), syms) {
                Ok(rest) => Ok(seq![f] + rest),
                Err(e) => Err(e),
            },
            Err(e) => Err(e),
        }
    }
}

/// Model of a fully lowered manifest, before assembly into the IR root.
pub struct ParserModel {
    pub enums: Seq<EnumModel>,
    pub objects: Seq<ObjectModel>,
    pub features: Seq<FeatureModel>,
    pub channels: Seq<Seq<char>>,
}

/// Model of the whole lowering pass: enums, then objects, then the symbol
/// table of their names, then features. Lowering is a function of the
/// document's model alone, so it is deterministic.
pub open spec fn lower_manifest(m: ManifestFrontEndModel) -> Result<ParserModel, ErrorModel> {
    let enums = lower_enums(m.types.enums);
    match lower_objects(m.types.objects) {
        Ok(objects) => match lower_features(m.features, symbol_map(enums, objects)) {
            Ok(features) => Ok(
                ParserModel {
                    enums: enums,
                    objects: objects,
                    features: features,
                    channels: m.channels,
                },
            ),
            Err(e) => Err(e),
        },
        Err(e) => Err(e),
    }
}

/// The IR that a lowered manifest assembles into: the lowered definitions,
/// with `hints` empty at this stage.
pub open spec fn ir_model(p: ParserModel) -> FeatureManifestModel {
    FeatureManifestModel {
        enum_defs: p.enums,
        obj_defs: p.objects,
        hints: Seq::empty(),
        feature_defs: p.features,
    }
}

/// Lowering is deterministic: it is specified as a function of the
/// document's model, so structurally identical documents lower to
/// structurally identical results.
pub proof fn lemma_lowering_deterministic(a: ManifestFrontEndModel, b: ManifestFrontEndModel)
    requires
        a == b,
    ensures
        lower_manifest(a) == lower_manifest(b),
{
}

/// Model of the outcome of constructing a `Parser`.
pub open spec fn parser_result_model(r: &Result<Parser, FMLError>) -> Result<
    ParserModel,
    ErrorModel,
> {
    match r {
        Ok(p) => Ok(p.model()),
        Err(e) => Err(e.model()),
    }
}

/// Model of the outcome of lowering one property.
pub open spec fn prop_result_model(r: &Result<PropDef, FMLError>) -> Result<
    PropModel,
    ErrorModel,
> {
    match r {
        Ok(p) => Ok(p.model()),
        Err(e) => Err(e.model()),
    }
}

impl PropDef {
    /// Lowers one named feature variable without any symbol-table fallback:
    /// the variable's type string must itself be a well-formed type
    /// expression.
    pub fn try_from(fv: FeatureVariable) -> (r: Result<PropDef, FMLError>)
        ensures
            prop_result_model(&r) == match resolve_type(fv.body.variable_type@) {
                Ok(t) => Ok::<PropModel, ErrorModel>(
                    PropModel {
                        name: fv.name@,
                        doc: fv.body.description@,
                        typ: t,
                        default: default_or_null(fv.body.model().default),
                    },
                ),
                Err(e) => Err::<PropModel, ErrorModel>(e),
            },
    {
        let typ = match TypeRef::try_from(fv.body.variable_type) {
            Ok(t) => t,
            Err(e) => {
                return Err(e);
            },
        };
        Ok(
            PropDef {
                name: fv.name,
                doc: fv.body.description,
                typ,
                default: match fv.body.default {
                    Some(v) => v,
                    None => Value::Null,
                },
            },
        )
    }
}

/// The lowering pass over one manifest document: holds the lowered
/// definitions, ready to be assembled into the IR.
#[derive(Debug)]
pub struct Parser {
    pub enums: Vec<EnumDef>,
    pub objects: Vec<ObjectDef>,
    pub features: Vec<FeatureDef>,
    pub channels: Vec<String>,
}

impl Parser {
    pub open spec fn model(&self) -> ParserModel {
        ParserModel {
            enums: self.enums@.map_values(|e: EnumDef| e.model()),
            objects: self.objects@.map_values(|o: ObjectDef| o.model()),
            features: self.features@.map_values(|f: FeatureDef| f.model()),
            channels: self.channels@.map_values(|c: String| c@),
        }
    }

    /// Lowers a manifest document. Every failure is returned: a field or
    /// variable whose type string is rejected surfaces that error, and a
    /// variable whose type string is neither a built-in constructor nor a
    /// declared name surfaces `UnknownUserType`.
    pub fn new(manifest: ManifestFrontEnd) -> (r: Result<Parser, FMLError>)
        ensures
            parser_result_model(&r) == lower_manifest(manifest.model()),
    {
        let enums = lower_enum_defs(&manifest.types.enums);
        let objects = match lower_object_defs(&manifest.types.objects) {
            Ok(os) => os,
            Err(e) => {
                return Err(e);
            },
        };
        let symbols = build_symbols(&enums, &objects);
        let features = match lower_feature_defs(&manifest.features, &symbols) {
            Ok(fs) => fs,
            Err(e) => {
                return Err(e);
            },
        };
        let channels = clone_channels(&manifest.channels);
        Ok(Parser { enums, objects, features, channels })
    }

    /// Assembles the immutable IR snapshot: the lowered definitions, with
    /// `hints` empty at this stage.
    pub fn get_intermediate_representation(&self) -> (r: Result<FeatureManifest, FMLError>)
        ensures
            r matches Ok(m) && m.model() == ir_model(self.model()),
    {
        let enum_defs = clone_enum_defs(&self.enums);
        let obj_defs = clone_object_defs(&self.objects);
        let feature_defs = clone_feature_defs(&self.features);
        let hints: Vec<(String, Value)> = Vec::new();
        proof {
            assert(hints@.map_values(|h: (String, Value)| (h.0@, h.1.model())) =~= Seq::<
                (Seq<char>, ValueModel),
            >::empty());
        }
        Ok(FeatureManifest { enum_defs, obj_defs, hints, feature_defs })
    }
}

/// Lowers every declared enum, preserving declaration order.
#[verifier::loop_isolation(false)]
fn lower_enum_defs(enums: &Vec<(String, EnumBody)>) -> (r: Vec<EnumDef>)
    ensures
        r@.map_values(|e: EnumDef| e.model()) == lower_enums(
            enums@.map_values(|p: (String, EnumBody)| (p.0@, p.1.model())),
        ),
{
    let mut out: Vec<EnumDef> = Vec::new();
    let n = enums.len();
    let mut i: usize = 0;
    while i < n
        invariant
            i <= n,
            out@.len() == i,
            forall|k: int|
                0 <= k < i ==> out@[k].model() == lower_enum(enums@[k].0@, enums@[k].1.model()),
        decreases n - i,
    {
        let name = enums[i].0.clone();
        let body = &enums[i].1;
        let mut variants: Vec<VariantDef> = Vec::new();
        let vn = body.variants.len();
        let mut j: usize = 0;
        while j < vn
            invariant
                j <= vn,
                vn == body.variants@.len(),
                variants@.len() == j,
                forall|k: int|
                    0 <= k < j ==> variants@[k].model() == (VariantModel {
                        name: body.variants@[k].0@,
                        doc: body.variants@[k].1.description@,
                    }),
            decreases vn - j,
        {
            variants.push(
                VariantDef {
                    name: body.variants[j].0.clone(),
                    doc: body.variants[j].1.description.clone(),
                },
            );
            j = j + 1;
        }
        let def = EnumDef { name, doc: body.description.clone(), variants };
        proof {
            assert(def.model().variants =~= lower_enum(enums@[i as int].0@, body.model()).variants);
        }
        out.push(def);
        i = i + 1;
    }
    proof {
        assert(out@.map_values(|e: EnumDef| e.model()) =~= lower_enums(
            enums@.map_values(|p: (String, EnumBody)| (p.0@, p.1.model())),
        ));
    }
    out
}

/// Lowers every declared object, in order, surfacing the first field whose
/// type string is rejected.
#[verifier::loop_isolation(false)]
fn lower_object_defs(objects: &Vec<(String, ObjectBody)>) -> (r: Result<Vec<ObjectDef>, FMLError>)
    ensures
        ({
            let om = lower_objects(
                objects@.map_values(|p: (String, ObjectBody)| (p.0@, p.1.model())),
            );
            match r {
                Ok(os) => om == Ok::<Seq<ObjectModel>, ErrorModel>(
                    os@.map_values(|o: ObjectDef| o.model()),
                ),
                Err(e) => om == Err::<Seq<ObjectModel>, ErrorModel>(e.model()),
            }
        }),
{
    let ghost osm = objects@.map_values(|p: (String, ObjectBody)| (p.0@, p.1.model()));
    let mut out: Vec<ObjectDef> = Vec::new();
    let n = objects.len();
    let mut i: usize = 0;
    proof {
        assert(osm.subrange(0, osm.len() as int) =~= osm);
    }
    while i < n
        invariant
            i <= n,
            n == osm.len(),
            out@.len() == i,
            lower_objects(osm) == match lower_objects(osm.subrange(i as int, osm.len() as int)) {
                Ok(rest) => Ok::<Seq<ObjectModel>, ErrorModel>(
                    out@.map_values(|o: ObjectDef| o.model()) + rest,
                ),
                Err(e) => Err::<Seq<ObjectModel>, ErrorModel>(e),
            },
        decreases n - i,
    {
        proof {
            assert(osm.subrange(i as int, osm.len() as int).drop_first() =~= osm.subrange(
                i as int + 1,
                osm.len() as int,
            ));
        }
        let name = objects[i].0.clone();
        let body = &objects[i].1;
        let props = match lower_object_fields(&body.fields) {
            Ok(ps) => ps,
            Err(e) => {
                return Err(e);
            },
        };
        let def = ObjectDef { name, doc: body.description.clone(), props };
        let ghost prev = out@.map_values(|o: ObjectDef| o.model());
        let ghost sub1 = osm.subrange(i as int + 1, osm.len() as int);
        proof {
            assert(lower_object(osm[i as int].0, osm[i as int].1) == Ok::<
                ObjectModel,
                ErrorModel,
            >(def.model()));
            if lower_objects(sub1) is Ok {
                assert((prev + (seq![def.model()] + lower_objects(sub1)->Ok_0)) =~= ((prev
                    + seq![def.model()]) + lower_objects(sub1)->Ok_0));
            }
        }
        out.push(def);
        proof {
            assert(out@.map_values(|o: ObjectDef| o.model()) =~= prev + seq![def.model()]);
        }
        i = i + 1;
    }
    proof {
        assert(osm.subrange(n as int, n as int) =~= Seq::<(Seq<char>, ObjectBodyModel)>::empty());
    }
    Ok(out)
}

/// Lowers the fields of one object, in order; the first rejected type string
/// surfaces its error.
#[verifier::loop_isolation(false)]
fn lower_object_fields(fields: &Vec<(String, ObjectFieldBody)>) -> (r: Result<
    Vec<PropDef>,
    FMLError,
>)
    ensures
        ({
            let fm = lower_fields(
                fields@.map_values(|p: (String, ObjectFieldBody)| (p.0@, p.1.model())),
            );
            match r {
                Ok(ps) => fm == Ok::<Seq<PropModel>, ErrorModel>(
                    ps@.map_values(|p: PropDef| p.model()),
                ),
                Err(e) => fm == Err::<Seq<PropModel>, ErrorModel>(e.model()),
            }
        }),
{
    let ghost fsm = fields@.map_values(|p: (String, ObjectFieldBody)| (p.0@, p.1.model()));
    let mut out: Vec<PropDef> = Vec::new();
    let n = fields.len();
    let mut i: usize = 0;
    proof {
        assert(fsm.subrange(0, fsm.len() as int) =~= fsm);
    }
    while i < n
        invariant
            i <= n,
            n == fsm.len(),
            out@.len() == i,
            lower_fields(fsm) == match lower_fields(fsm.subrange(i as int, fsm.len() as int)) {
                Ok(rest) => Ok::<Seq<PropModel>, ErrorModel>(
                    out@.map_values(|p: PropDef| p.model()) + rest,
                ),
                Err(e) => Err::<Seq<PropModel>, ErrorModel>(e),
            },
        decreases n - i,
    {
        proof {
            assert(fsm.subrange(i as int, fsm.len() as int).drop_first() =~= fsm.subrange(
                i as int + 1,
                fsm.len() as int,
            ));
        }
        let body = &fields[i].1;
        let typ = match TypeRef::try_from(body.variable_type.clone()) {
            Ok(t) => t,
            Err(e) => {
                return Err(e);
            },
        };
        let default = match &body.default {
            Some(v) => v.clone(),
            None => Value::Null,
        };
        let def = PropDef {
            name: fields[i].0.clone(),
            doc: body.description.clone(),
            typ,
            default,
        };
        let ghost prev = out@.map_values(|p: PropDef| p.model());
        let ghost sub1 = fsm.subrange(i as int + 1, fsm.len() as int);
        proof {
            assert(lower_field(fsm[i as int].0, fsm[i as int].1) == Ok::<PropModel, ErrorModel>(
                def.model(),
            ));
            if lower_fields(sub1) is Ok {
                assert((prev + (seq![def.model()] + lower_fields(sub1)->Ok_0)) =~= ((prev
                    + seq![def.model()]) + lower_fields(sub1)->Ok_0));
            }
        }
        out.push(def);
        proof {
            assert(out@.map_values(|p: PropDef| p.model()) =~= prev + seq![def.model()]);
        }
        i = i + 1;
    }
    proof {
        assert(fsm.subrange(n as int, n as int) =~= Seq::<
            (Seq<char>, ObjectFieldBodyModel),
        >::empty());
    }
    Ok(out)
}

/// Builds the symbol table: every enum name, then every object name.
#[verifier::loop_isolation(false)]
fn build_symbols(enums: &Vec<EnumDef>, objects: &Vec<ObjectDef>) -> (r: SymbolTable)
    ensures
        r.model() == symbol_map(
            enums@.map_values(|e: EnumDef| e.model()),
            objects@.map_values(|o: ObjectDef| o.model()),
        ),
{
    let ghost esm = enums@.map_values(|e: EnumDef| e.model());
    let ghost osm = objects@.map_values(|o: ObjectDef| o.model());
    let mut table = SymbolTable::new();
    let n = enums.len();
    let mut i: usize = 0;
    proof {
        assert(esm.subrange(0, esm.len() as int) =~= esm);
    }
    while i < n
        invariant
            i <= n,
            n == esm.len(),
            insert_enums(table.model(), esm.subrange(i as int, esm.len() as int)) == insert_enums(
                Map::empty(),
                esm,
            ),
        decreases n - i,
    {
        proof {
            assert(esm.subrange(i as int, esm.len() as int).drop_first() =~= esm.subrange(
                i as int + 1,
                esm.len() as int,
            ));
        }
        table.insert(enums[i].name.clone(), TypeRef::Enum(enums[i].name.clone()));
        i = i + 1;
    }
    proof {
        assert(esm.subrange(n as int, n as int) =~= Seq::<EnumModel>::empty());
        assert(osm.subrange(0, osm.len() as int) =~= osm);
    }
    let m = objects.len();
    let mut j: usize = 0;
    while j < m
        invariant
            j <= m,
            m == osm.len(),
            insert_objects(table.model(), osm.subrange(j as int, osm.len() as int))
                == insert_objects(insert_enums(Map::empty(), esm), osm),
        decreases m - j,
    {
        proof {
            assert(osm.subrange(j as int, osm.len() as int).drop_first() =~= osm.subrange(
                j as int + 1,
                osm.len() as int,
            ));
        }
        table.insert(objects[j].name.clone(), TypeRef::Object(objects[j].name.clone()));
        j = j + 1;
    }
    proof {
        assert(osm.subrange(m as int, m as int) =~= Seq::<ObjectModel>::empty());
    }
    table
}

/// Lowers every declared feature, in order; the first rejected variable
/// surfaces its error.
#[verifier::loop_isolation(false)]
fn lower_feature_defs(features: &Vec<(String, FeatureBody)>, symbols: &SymbolTable) -> (r: Result<
    Vec<FeatureDef>,
    FMLError,
>)
    ensures
        ({
            let fm = lower_features(
                features@.map_values(|p: (String, FeatureBody)| (p.0@, p.1.model())),
                symbols.model(),
            );
            match r {
                Ok(fs) => fm == Ok::<Seq<FeatureModel>, ErrorModel>(
                    fs@.map_values(|f: FeatureDef| f.model()),
                ),
                Err(e) => fm == Err::<Seq<FeatureModel>, ErrorModel>(e.model()),
            }
        }),
{
    let ghost fsm = features@.map_values(|p: (String, FeatureBody)| (p.0@, p.1.model()));
    let mut out: Vec<FeatureDef> = Vec::new();
    let n = features.len();
    let mut i: usize = 0;
    proof {
        assert(fsm.subrange(0, fsm.len() as int) =~= fsm);
    }
    while i < n
        invariant
            i <= n,
            n == fsm.len(),
            out@.len() == i,
            lower_features(fsm, symbols.model()) == match lower_features(
                fsm.subrange(i as int, fsm.len() as int),
                symbols.model(),
            ) {
                Ok(rest) => Ok::<Seq<FeatureModel>, ErrorModel>(
                    out@.map_values(|f: FeatureDef| f.model()) + rest,
                ),
                Err(e) => Err::<Seq<FeatureModel>, ErrorModel>(e),
            },
        decreases n - i,
    {
        proof {
            assert(fsm.subrange(i as int, fsm.len() as int).drop_first() =~= fsm.subrange(
                i as int + 1,
                fsm.len() as int,
            ));
        }
        let name = features[i].0.clone();
        let body = &features[i].1;
        let props = match lower_feature_variables(&body.variables, symbols) {
            Ok(ps) => ps,
            Err(e) => {
                return Err(e);
            },
        };
        let default = match &body.default {
            Some(v) => Some(v.clone()),
            None => None,
        };
        let def = FeatureDef { name, doc: body.description.clone(), props, default };
        let ghost prev = out@.map_values(|f: FeatureDef| f.model());
        let ghost sub1 = fsm.subrange(i as int + 1, fsm.len() as int);
        proof {
            assert(lower_feature(fsm[i as int].0, fsm[i as int].1, symbols.model()) == Ok::<
                FeatureModel,
                ErrorModel,
            >(def.model()));
            if lower_features(sub1, symbols.model()) is Ok {
                assert((prev + (seq![def.model()] + lower_features(sub1, symbols.model())->Ok_0))
                    =~= ((prev + seq![def.model()]) + lower_features(
                    sub1,
                    symbols.model(),
                )->Ok_0));
            }
        }
        out.push(def);
        proof {
            assert(out@.map_values(|f: FeatureDef| f.model()) =~= prev + seq![def.model()]);
        }
        i = i + 1;
    }
    proof {
        assert(fsm.subrange(n as int, n as int) =~= Seq::<(Seq<char>, FeatureBodyModel)>::empty());
    }
    Ok(out)
}

/// Lowers the variables of one feature, in order, using the symbol table as
/// a fallback for type strings that are not built-in constructors.
#[verifier::loop_isolation(false)]
fn lower_feature_variables(variables: &Vec<(String, FeatureVariableBody)>, symbols: &SymbolTable)
    -> (r: Result<Vec<PropDef>, FMLError>)
    ensures
        ({
            let vm = lower_variables(
                variables@.map_values(
                    |p: (String, FeatureVariableBody)| (p.0@, p.1.model()),
                ),
                symbols.model(),
            );
            match r {
                Ok(ps) => vm == Ok::<Seq<PropModel>, ErrorModel>(
                    ps@.map_values(|p: PropDef| p.model()),
                ),
                Err(e) => vm == Err::<Seq<PropModel>, ErrorModel>(e.model()),
            }
        }),
{
    let ghost vsm = variables@.map_values(|p: (String, FeatureVariableBody)| (p.0@, p.1.model()));
    let mut out: Vec<PropDef> = Vec::new();
    let n = variables.len();
    let mut i: usize = 0;
    proof {
        assert(vsm.subrange(0, vsm.len() as int) =~= vsm);
    }
    while i < n
        invariant
            i <= n,
            n == vsm.len(),
            out@.len() == i,
            lower_variables(vsm, symbols.model()) == match lower_variables(
                vsm.subrange(i as int, vsm.len() as int),
                symbols.model(),
            ) {
                Ok(rest) => Ok::<Seq<PropModel>, ErrorModel>(
                    out@.map_values(|p: PropDef| p.model()) + rest,
                ),
                Err(e) => Err::<Seq<PropModel>, ErrorModel>(e),
            },
        decreases n - i,
    {
        proof {
            assert(vsm.subrange(i as int, vsm.len() as int).drop_first() =~= vsm.subrange(
                i as int + 1,
                vsm.len() as int,
            ));
        }
        let body = &variables[i].1;
        let typ = match TypeRef::try_from(body.variable_type.clone()) {
            Ok(t) => t,
            Err(_) => match symbols.lookup(&body.variable_type) {
                Some(t) => t,
                None => {
                    return Err(FMLError::UnknownUserType(body.variable_type.clone()));
                },
            },
        };
        let default = match &body.default {
            Some(v) => v.clone(),
            None => Value::Null,
        };
        let def = PropDef {
            name: variables[i].0.clone(),
            doc: body.description.clone(),
            typ,
            default,
        };
        let ghost prev = out@.map_values(|p: PropDef| p.model());
        let ghost sub1 = vsm.subrange(i as int + 1, vsm.len() as int);
        proof {
            assert(lower_variable(vsm[i as int].0, vsm[i as int].1, symbols.model()) == Ok::<
                PropModel,
                ErrorModel,
            >(def.model()));
            if lower_variables(sub1, symbols.model()) is Ok {
                assert((prev + (seq![def.model()] + lower_variables(sub1, symbols.model())->Ok_0))
                    =~= ((prev + seq![def.model()]) + lower_variables(
                    sub1,
                    symbols.model(),
                )->Ok_0));
            }
        }
        out.push(def);
        proof {
            assert(out@.map_values(|p: PropDef| p.model()) =~= prev + seq![def.model()]);
        }
        i = i + 1;
    }
    proof {
        assert(vsm.subrange(n as int, n as int) =~= Seq::<
            (Seq<char>, FeatureVariableBodyModel),
        >::empty());
    }
    Ok(out)
}

/// Copies the channel names through unchanged.
#[verifier::loop_isolation(false)]
fn clone_channels(channels: &Vec<String>) -> (r: Vec<String>)
    ensures
        r@.map_values(|c: String| c@) == channels@.map_values(|c: String| c@),
{
    let out = channels.clone();
    proof {
        assert(out@.map_values(|c: String| c@) =~= channels@.map_values(|c: String| c@));
    }
    out
}

/// Copies the lowered enums for the IR snapshot.
fn clone_enum_defs(enums: &Vec<EnumDef>) -> (r: Vec<EnumDef>)
    ensures
        r@.map_values(|e: EnumDef| e.model()) == enums@.map_values(|e: EnumDef| e.model()),
{
    let out = enums.clone();
    proof {
        assert forall|i: int| 0 <= i < out@.len() implies out@[i].model()
            == enums@[i].model() by {}
        assert(out@.map_values(|e: EnumDef| e.model()) =~= enums@.map_values(
            |e: EnumDef| e.model(),
        ));
    }
    out
}

/// Copies the lowered objects for the IR snapshot.
fn clone_object_defs(objects: &Vec<ObjectDef>) -> (r: Vec<ObjectDef>)
    ensures
        r@.map_values(|o: ObjectDef| o.model()) == objects@.map_values(|o: ObjectDef| o.model()),
{
    let out = objects.clone();
    proof {
        assert forall|i: int| 0 <= i < out@.len() implies out@[i].model()
            == objects@[i].model() by {}
        assert(out@.map_values(|o: ObjectDef| o.model()) =~= objects@.map_values(
            |o: ObjectDef| o.model(),
        ));
    }
    out
}

/// Copies the lowered features for the IR snapshot.
fn clone_feature_defs(features: &Vec<FeatureDef>) -> (r: Vec<FeatureDef>)
    ensures
        r@.map_values(|f: FeatureDef| f.model()) == features@.map_values(
            |f: FeatureDef| f.model(),
        ),
{
    let out = features.clone();
    proof {
        assert forall|i: int| 0 <= i < out@.len() implies out@[i].model()
            == features@[i].model() by {}
        assert(out@.map_values(|f: FeatureDef| f.model()) =~= features@.map_values(
            |f: FeatureDef| f.model(),
        ));
    }
    out
}

} // verus!
