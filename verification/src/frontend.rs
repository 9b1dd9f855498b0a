//! The raw parsed document: the key/value shape of a manifest after
//! deserialization, before lowering. Mappings are held as sequences of
//! name/body pairs in declaration order.

use vstd::prelude::*;

use crate::values::{Value, ValueModel};

verus! {

/// One enum member as authored.
#[derive(Debug, PartialEq)]
pub struct EnumVariantBody {
    pub description: String,
}

pub struct EnumVariantBodyModel {
    pub description: Seq<char>,
}

/// One enum declaration as authored.
#[derive(Debug, PartialEq)]
pub struct EnumBody {
    pub description: String,
    pub variants: Vec<(String, EnumVariantBody)>,
}

pub struct EnumBodyModel {
    pub description: Seq<char>,
    pub variants: Seq<(Seq<char>, EnumVariantBodyModel)>,
}

/// One object field as authored: its type is still a type-expression string.
#[derive(Debug, PartialEq)]
pub struct ObjectFieldBody {
    pub description: String,
    pub required: bool,
    pub variable_type: String,
    pub default: Option<Value>,
}

pub struct ObjectFieldBodyModel {
    pub description: Seq<char>,
    pub required: bool,
    pub variable_type: Seq<char>,
    pub default: Option<ValueModel>,
}

/// One object declaration as authored.
#[derive(Debug, PartialEq)]
pub struct ObjectBody {
    pub description: String,
    pub failable: Option<bool>,
    pub fields: Vec<(String, ObjectFieldBody)>,
}

pub struct ObjectBodyModel {
    pub description: Seq<char>,
    pub failable: Option<bool>,
    pub fields: Seq<(Seq<char>, ObjectFieldBodyModel)>,
}

/// The `types` section: declared enums and objects.
#[derive(Debug, PartialEq)]
pub struct Types {
    pub enums: Vec<(String, EnumBody)>,
    pub objects: Vec<(String, ObjectBody)>,
}

pub struct TypesModel {
    pub enums: Seq<(Seq<char>, EnumBodyModel)>,
    pub objects: Seq<(Seq<char>, ObjectBodyModel)>,
}

/// One feature variable as authored.
#[derive(Debug, PartialEq)]
pub struct FeatureVariableBody {
    pub description: String,
    pub variable_type: String,
    pub default: Option<Value>,
}

pub struct FeatureVariableBodyModel {
    pub description: Seq<char>,
    pub variable_type: Seq<char>,
    pub default: Option<ValueModel>,
}

/// A feature variable together with its name.
#[derive(Debug, PartialEq)]
pub struct FeatureVariable {
    pub name: String,
    pub body: FeatureVariableBody,
}

/// One feature declaration as authored.
#[derive(Debug, PartialEq)]
pub struct FeatureBody {
    pub description: String,
    pub variables: Vec<(String, FeatureVariableBody)>,
    pub default: Option<Value>,
}

pub struct FeatureBodyModel {
    pub description: Seq<char>,
    pub variables: Seq<(Seq<char>, FeatureVariableBodyModel)>,
    pub default: Option<ValueModel>,
}

/// The whole manifest document as authored.
#[derive(Debug, PartialEq)]
pub struct ManifestFrontEnd {
    pub types: Types,
    pub features: Vec<(String, FeatureBody)>,
    pub channels: Vec<String>,
}

pub struct ManifestFrontEndModel {
    pub types: TypesModel,
    pub features: Seq<(Seq<char>, FeatureBodyModel)>,
    pub channels: Seq<Seq<char>>,
}

impl EnumVariantBody {
    pub open spec fn model(&self) -> EnumVariantBodyModel {
        EnumVariantBodyModel { description: self.description@ }
    }
}

impl EnumBody {
    pub open spec fn model(&self) -> EnumBodyModel {
        EnumBodyModel {
            description: self.description@,
            variants: self.variants@.map_values(
                |p: (String, EnumVariantBody)| (p.0@, p.1.model()),
            ),
        }
    }
}

impl ObjectFieldBody {
    pub open spec fn model(&self) -> ObjectFieldBodyModel {
        ObjectFieldBodyModel {
            description: self.description@,
            required: self.required,
            variable_type: self.variable_type@,
            default: match &self.default {
                Some(v) => Some(v.model()),
                None => None,
            },
        }
    }
}

impl ObjectBody {
    pub open spec fn model(&self) -> ObjectBodyModel {
        ObjectBodyModel {
            description: self.description@,
            failable: self.failable,
            fields: self.fields@.map_values(|p: (String, ObjectFieldBody)| (p.0@, p.1.model())),
        }
    }
}

impl Types {
    pub open spec fn model(&self) -> TypesModel {
        TypesModel {
            enums: self.enums@.map_values(|p: (String, EnumBody)| (p.0@, p.1.model())),
            objects: self.objects@.map_values(|p: (String, ObjectBody)| (p.0@, p.1.model())),
        }
    }
}

impl FeatureVariableBody {
    pub open spec fn model(&self) -> FeatureVariableBodyModel {
        FeatureVariableBodyModel {
            description: self.description@,
            variable_type: self.variable_type@,
            default: match &self.default {
                Some(v) => Some(v.model()),
                None => None,
            },
        }
    }
}

impl FeatureBody {
    pub open spec fn model(&self) -> FeatureBodyModel {
        FeatureBodyModel {
            description: self.description@,
            variables: self.variables@.map_values(
                |p: (String, FeatureVariableBody)| (p.0@, p.1.model()),
            ),
            default: match &self.default {
                Some(v) => Some(v.model()),
                None => None,
            },
        }
    }
}

impl ManifestFrontEnd {
    pub open spec fn model(&self) -> ManifestFrontEndModel {
        ManifestFrontEndModel {
            types: self.types.model(),
            features: self.features@.map_values(|p: (String, FeatureBody)| (p.0@, p.1.model())),
            channels: self.channels@.map_values(|c: String| c@),
        }
    }
}

} // verus!
