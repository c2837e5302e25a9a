//! The shape of an answer of the computer-algebra service.

use vstd::prelude::*;

verus! {

/// A picture that an answer block offers.
#[derive(Debug, Clone)]
pub struct Image {
    pub src: String,
    pub alt: String,
    pub title: String,
    pub width: u32,
    pub height: u32,
    pub image_type: String,
    pub content_type: String,
}

/// A part of an answer block, which holds the payload.
#[derive(Debug, Clone)]
pub struct SubPod {
    pub title: String,
    pub plain_text: Option<String>,
    pub img: Option<Image>,
}

/// An answer block.
#[derive(Debug, Clone)]
pub struct Pod {
    pub title: String,
    pub id: String,
    pub scanner: String,
    pub error: bool,
    pub sub_pods_amount: u32,
    pub sub_pods: Vec<SubPod>,
}

/// The service's answer to one query.
#[derive(Debug, Clone)]
pub struct QueryResult {
    pub success: bool,
    pub error: bool,
    pub pods_amount: u32,
    pub pods: Vec<Pod>,
}

/// The envelope of an answer.
#[derive(Debug, Clone)]
pub struct Container {
    pub result: QueryResult,
}

/// The identifiers of answer blocks that the solver asks for.
#[derive(Debug, Clone, Copy, PartialEq, Eq, Structural)]
pub enum PodId {
    Input,
    Result,
    Substitution,
    Integral,
    DefiniteIntegral,
    IndefiniteIntegral,
    VisualRepresentationOfTheIntegral,
    RiemannSums,
    AlternateForm,
    ExpandedForm,
    PolynomialForm,
    Solution,
    Value,
    Root,
    Plot,
    RootPlot,
    NumberLine,
    ContourPlot,
}

/// The identifier text of a block kind: the variant's name.
pub open spec fn pod_name(p: PodId) -> Seq<char> {
    match p {
        PodId::Input => "Input"@,
        PodId::Result => "Result"@,
        PodId::Substitution => "Substitution"@,
        PodId::Integral => "Integral"@,
        PodId::DefiniteIntegral => "DefiniteIntegral"@,
        PodId::IndefiniteIntegral => "IndefiniteIntegral"@,
        PodId::VisualRepresentationOfTheIntegral => "VisualRepresentationOfTheIntegral"@,
        PodId::RiemannSums => "RiemannSums"@,
        PodId::AlternateForm => "AlternateForm"@,
        PodId::ExpandedForm => "ExpandedForm"@,
        PodId::PolynomialForm => "PolynomialForm"@,
        PodId::Solution => "Solution"@,
        PodId::Value => "Value"@,
        PodId::Root => "Root"@,
        PodId::Plot => "Plot"@,
        PodId::RootPlot => "RootPlot"@,
        PodId::NumberLine => "NumberLine"@,
        PodId::ContourPlot => "ContourPlot"@,
    }
}

impl PodId {
    /// The identifier text of this block kind, as the service writes it.
    pub fn to_string(&self) -> (s: String)
        ensures
            s@ == pod_name(*self),
    {
        match self {
            PodId::Input => String::from_str("Input"),
            PodId::Result => String::from_str("Result"),
            PodId::Substitution => String::from_str("Substitution"),
            PodId::Integral => String::from_str("Integral"),
            PodId::DefiniteIntegral => String::from_str("DefiniteIntegral"),
            PodId::IndefiniteIntegral => String::from_str("IndefiniteIntegral"),
            PodId::VisualRepresentationOfTheIntegral => String::from_str("VisualRepresentationOfTheIntegral"),
            PodId::RiemannSums => String::from_str("RiemannSums"),
            PodId::AlternateForm => String::from_str("AlternateForm"),
            PodId::ExpandedForm => String::from_str("ExpandedForm"),
            PodId::PolynomialForm => String::from_str("PolynomialForm"),
            PodId::Solution => String::from_str("Solution"),
            PodId::Value => String::from_str("Value"),
            PodId::Root => String::from_str("Root"),
            PodId::Plot => String::from_str("Plot"),
            PodId::RootPlot => String::from_str("RootPlot"),
            PodId::NumberLine => String::from_str("NumberLine"),
            PodId::ContourPlot => String::from_str("ContourPlot"),
        }
    }
}

} // verus!
