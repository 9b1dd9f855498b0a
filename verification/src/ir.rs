//! The intermediate representation: fully resolved enum, object and feature
//! definitions, assembled once per manifest and never mutated afterward.

use vstd::prelude::*;

use crate::types::{TypeModel, TypeRef};
use crate::values::{Value, ValueModel};

verus! {

/// One enum member.
#[derive(Debug, PartialEq)]
pub struct VariantDef {
    pub name: String,
    pub doc: String,
}

/// Model of one enum member.
pub struct VariantModel {
    pub name: Seq<char>,
    pub doc: Seq<char>,
}

/// A lowered enum declaration.
#[derive(Debug, PartialEq)]
pub struct EnumDef {
    pub name: String,
    pub doc: String,
    pub variants: Vec<VariantDef>,
}

/// Model of a lowered enum declaration.
pub struct EnumModel {
    pub name: Seq<char>,
    pub doc: Seq<char>,
    pub variants: Seq<VariantModel>,
}

/// A field of an object, or a variable of a feature: a name with its
/// documentation, resolved type and preserved default (`Null` when the
/// document supplied none).
#[derive(Debug, PartialEq)]
pub struct PropDef {
    pub name: String,
    pub doc: String,
    pub typ: TypeRef,
    pub default: Value,
}

/// Model of an object field or feature variable.
pub struct PropModel {
    pub name: Seq<char>,
    pub doc: Seq<char>,
    pub typ: TypeModel,
    pub default: ValueModel,
}

/// A lowered object declaration.
#[derive(Debug, PartialEq)]
pub struct ObjectDef {
    pub name: String,
    pub doc: String,
    pub props: Vec<PropDef>,
}

/// Model of a lowered object declaration.
pub struct ObjectModel {
    pub name: Seq<char>,
    pub doc: Seq<char>,
    pub props: Seq<PropModel>,
}

/// A lowered feature declaration, with an optional feature-level default
/// that is present exactly when the document supplied one.
#[derive(Debug, PartialEq)]
pub struct FeatureDef {
    pub name: String,
    pub doc: String,
    pub props: Vec<PropDef>,
    pub default: Option<Value>,
}

/// Model of a lowered feature declaration.
pub struct FeatureModel {
    pub name: Seq<char>,
    pub doc: Seq<char>,
    pub props: Seq<PropModel>,
    pub default: Option<ValueModel>,
}

/// The root of the intermediate representation. `hints` is a placeholder
/// populated by later stages; this pass always leaves it empty.
#[derive(Debug, PartialEq)]
pub struct FeatureManifest {
    pub enum_defs: Vec<EnumDef>,
    pub obj_defs: Vec<ObjectDef>,
    pub hints: Vec<(String, Value)>,
    pub feature_defs: Vec<FeatureDef>,
}

/// Model of the intermediate representation root.
pub struct FeatureManifestModel {
    pub enum_defs: Seq<EnumModel>,
    pub obj_defs: Seq<ObjectModel>,
    pub hints: Seq<(Seq<char>, ValueModel)>,
    pub feature_defs: Seq<FeatureModel>,
}

/// Model of an optional default value.
pub open spec fn opt_value_model(o: &Option<Value>) -> Option<ValueModel> {
    match o {
        Some(v) => Some(v.model()),
        None => None,
    }
}

impl VariantDef {
    pub open spec fn model(&self) -> VariantModel {
        VariantModel { name: self.name@, doc: self.doc@ }
    }
}

impl EnumDef {
    pub open spec fn model(&self) -> EnumModel {
        EnumModel {
            name: self.name@,
            doc: self.doc@,
            variants: self.variants@.map_values(|v: VariantDef| v.model()),
        }
    }
}

impl PropDef {
    pub open spec fn model(&self) -> PropModel {
        PropModel {
            name: self.name@,
            doc: self.doc@,
            typ: self.typ.model(),
            default: self.default.model(),
        }
    }
}

impl ObjectDef {
    pub open spec fn model(&self) -> ObjectModel {
        ObjectModel {
            name: self.name@,
            doc: self.doc@,
            props: self.props@.map_values(|p: PropDef| p.model()),
        }
    }
}

impl FeatureDef {
    pub open spec fn model(&self) -> FeatureModel {
        FeatureModel {
            name: self.name@,
            doc: self.doc@,
            props: self.props@.map_values(|p: PropDef| p.model()),
            default: opt_value_model(&self.default),
        }
    }
}

impl FeatureManifest {
    pub open spec fn model(&self) -> FeatureManifestModel {
        FeatureManifestModel {
            enum_defs: self.enum_defs@.map_values(|e: EnumDef| e.model()),
            obj_defs: self.obj_defs@.map_values(|o: ObjectDef| o.model()),
            hints: self.hints@.map_values(|h: (String, Value)| (h.0@, h.1.model())),
            feature_defs: self.feature_defs@.map_values(|f: FeatureDef| f.model()),
        }
    }
}

impl Clone for VariantDef {
    /// A clone denotes the same variant.
    fn clone(&self) -> (res: Self)
        ensures
            res.model() == self.model(),
    {
        VariantDef { name: self.name.clone(), doc: self.doc.clone() }
    }
}

impl Clone for PropDef {
    /// A clone denotes the same field or variable.
    fn clone(&self) -> (res: Self)
        ensures
            res.model() == self.model(),
    {
        PropDef {
            name: self.name.clone(),
            doc: self.doc.clone(),
            typ: self.typ.clone(),
            default: self.default.clone(),
        }
    }
}

impl Clone for EnumDef {
    /// A clone denotes the same enum definition.
    fn clone(&self) -> (res: Self)
        ensures
            res.model() == self.model(),
    {
        let variants = self.variants.clone();
        proof {
            assert forall|i: int| 0 <= i < variants@.len() implies variants@[i].model()
                == self.variants@[i].model() by {}
            assert(variants@.map_values(|v: VariantDef| v.model()) =~= self.variants@.map_values(
                |v: VariantDef| v.model(),
            ));
        }
        EnumDef { name: self.name.clone(), doc: self.doc.clone(), variants }
    }
}

impl Clone for ObjectDef {
    /// A clone denotes the same object definition.
    fn clone(&self) -> (res: Self)
        ensures
            res.model() == self.model(),
    {
        let props = self.props.clone();
        proof {
            assert forall|i: int| 0 <= i < props@.len() implies props@[i].model()
                == self.props@[i].model() by {}
            assert(props@.map_values(|p: PropDef| p.model()) =~= self.props@.map_values(
                |p: PropDef| p.model(),
            ));
        }
        ObjectDef { name: self.name.clone(), doc: self.doc.clone(), props }
    }
}

impl Clone for FeatureDef {
    /// A clone denotes the same feature definition.
    fn clone(&self) -> (res: Self)
        ensures
            res.model() == self.model(),
    {
        let props = self.props.clone();
        proof {
            assert forall|i: int| 0 <= i < props@.len() implies props@[i].model()
                == self.props@[i].model() by {}
            assert(props@.map_values(|p: PropDef| p.model()) =~= self.props@.map_values(
                |p: PropDef| p.model(),
            ));
        }
        let default = match &self.default {
            Some(v) => Some(v.clone()),
            None => None,
        };
        FeatureDef { name: self.name.clone(), doc: self.doc.clone(), props, default }
    }
}

} // verus!
