use vstd::prelude::*;
use vstd::string::StringExecFns;

use crate::spinner::text::str_eq;

verus! {

/// One catalog entry: the ordered animation glyphs of a style and the
/// default time, in milliseconds, that each glyph stays on screen.
#[derive(Debug, Clone, PartialEq)]
pub struct SpinnerData {
    pub frames: Vec<String>,
    pub frame_duration: u64,
}

/// The built-in animation styles.
#[derive(Debug, Clone, Copy, PartialEq, Eq, Hash, Structural)]
pub enum SpinnerStyle {
    Aesthetic,
    Arc,
    Arrow,
    Arrow2,
    Arrow3,
    Balloon,
    Balloon2,
    BetaWave,
    BluePulse,
    Bounce,
    BouncingBall,
    BouncingBar,
    BoxBounce,
    BoxBounce2,
    Christmas,
    Circle,
    CircleHalves,
    CircleQuarters,
    Clock,
    Dots,
    Dots10,
    Dots11,
    Dots12,
    Dots13,
    Dots2,
    Dots3,
    Dots4,
    Dots5,
    Dots6,
    Dots7,
    Dots8,
    Dots8Bit,
    Dots9,
    Dqpb,
    Earth,
    FingerDance,
    FistBump,
    Flip,
    Grenade,
    GrowHorizontal,
    GrowVertical,
    Hamburger,
    Hearts,
    Layer,
    Line,
    Line2,
    Material,
    Mindblown,
    Monkey,
    Moon,
    Noise,
    OrangeBluePulse,
    OrangePulse,
    Pipe,
    Point,
    Pong,
    Runner,
    Sand,
    Shark,
    SimpleDots,
    SimpleDotsScrolling,
    Smiley,
    SoccerHeader,
    Speaker,
    SquareCorners,
    Squish,
    Star,
    Star2,
    TimeTravel,
    Toggle,
    Toggle10,
    Toggle11,
    Toggle12,
    Toggle13,
    Toggle2,
    Toggle3,
    Toggle4,
    Toggle5,
    Toggle6,
    Toggle7,
    Toggle8,
    Toggle9,
    Triangle,
    Weather,
}

impl Default for SpinnerStyle {
    /// The default animation style.
    fn default() -> (r: Self)
        ensures
            r == SpinnerStyle::CircleHalves,
    {
        SpinnerStyle::CircleHalves
    }
}

/// The name of each style, as written in its variant.
pub open spec fn spec_style_name(s: SpinnerStyle) -> Seq<char> {
    match s {
        SpinnerStyle::Aesthetic => "Aesthetic"@,
        SpinnerStyle::Arc => "Arc"@,
        SpinnerStyle::Arrow => "Arrow"@,
        SpinnerStyle::Arrow2 => "Arrow2"@,
        SpinnerStyle::Arrow3 => "Arrow3"@,
        SpinnerStyle::Balloon => "Balloon"@,
        SpinnerStyle::Balloon2 => "Balloon2"@,
        SpinnerStyle::BetaWave => "BetaWave"@,
        SpinnerStyle::BluePulse => "BluePulse"@,
        SpinnerStyle::Bounce => "Bounce"@,
        SpinnerStyle::BouncingBall => "BouncingBall"@,
        SpinnerStyle::BouncingBar => "BouncingBar"@,
        SpinnerStyle::BoxBounce => "BoxBounce"@,
        SpinnerStyle::BoxBounce2 => "BoxBounce2"@,
        SpinnerStyle::Christmas => "Christmas"@,
        SpinnerStyle::Circle => "Circle"@,
        SpinnerStyle::CircleHalves => "CircleHalves"@,
        SpinnerStyle::CircleQuarters => "CircleQuarters"@,
        SpinnerStyle::Clock => "Clock"@,
        SpinnerStyle::Dots => "Dots"@,
        SpinnerStyle::Dots10 => "Dots10"@,
        SpinnerStyle::Dots11 => "Dots11"@,
        SpinnerStyle::Dots12 => "Dots12"@,
        SpinnerStyle::Dots13 => "Dots13"@,
        SpinnerStyle::Dots2 => "Dots2"@,
        SpinnerStyle::Dots3 => "Dots3"@,
        SpinnerStyle::Dots4 => "Dots4"@,
        SpinnerStyle::Dots5 => "Dots5"@,
        SpinnerStyle::Dots6 => "Dots6"@,
        SpinnerStyle::Dots7 => "Dots7"@,
        SpinnerStyle::Dots8 => "Dots8"@,
        SpinnerStyle::Dots8Bit => "Dots8Bit"@,
        SpinnerStyle::Dots9 => "Dots9"@,
        SpinnerStyle::Dqpb => "Dqpb"@,
        SpinnerStyle::Earth => "Earth"@,
        SpinnerStyle::FingerDance => "FingerDance"@,
        SpinnerStyle::FistBump => "FistBump"@,
        SpinnerStyle::Flip => "Flip"@,
        SpinnerStyle::Grenade => "Grenade"@,
        SpinnerStyle::GrowHorizontal => "GrowHorizontal"@,
        SpinnerStyle::GrowVertical => "GrowVertical"@,
        SpinnerStyle::Hamburger => "Hamburger"@,
        SpinnerStyle::Hearts => "Hearts"@,
        SpinnerStyle::Layer => "Layer"@,
        SpinnerStyle::Line => "Line"@,
        SpinnerStyle::Line2 => "Line2"@,
        SpinnerStyle::Material => "Material"@,
        SpinnerStyle::Mindblown => "Mindblown"@,
        SpinnerStyle::Monkey => "Monkey"@,
        SpinnerStyle::Moon => "Moon"@,
        SpinnerStyle::Noise => "Noise"@,
        SpinnerStyle::OrangeBluePulse => "OrangeBluePulse"@,
        SpinnerStyle::OrangePulse => "OrangePulse"@,
        SpinnerStyle::Pipe => "Pipe"@,
        SpinnerStyle::Point => "Point"@,
        SpinnerStyle::Pong => "Pong"@,
        SpinnerStyle::Runner => "Runner"@,
        SpinnerStyle::Sand => "Sand"@,
        SpinnerStyle::Shark => "Shark"@,
        SpinnerStyle::SimpleDots => "SimpleDots"@,
        SpinnerStyle::SimpleDotsScrolling => "SimpleDotsScrolling"@,
        SpinnerStyle::Smiley => "Smiley"@,
        SpinnerStyle::SoccerHeader => "SoccerHeader"@,
        SpinnerStyle::Speaker => "Speaker"@,
        SpinnerStyle::SquareCorners => "SquareCorners"@,
        SpinnerStyle::Squish => "Squish"@,
        SpinnerStyle::Star => "Star"@,
        SpinnerStyle::Star2 => "Star2"@,
        SpinnerStyle::TimeTravel => "TimeTravel"@,
        SpinnerStyle::Toggle => "Toggle"@,
        SpinnerStyle::Toggle10 => "Toggle10"@,
        SpinnerStyle::Toggle11 => "Toggle11"@,
        SpinnerStyle::Toggle12 => "Toggle12"@,
        SpinnerStyle::Toggle13 => "Toggle13"@,
        SpinnerStyle::Toggle2 => "Toggle2"@,
        SpinnerStyle::Toggle3 => "Toggle3"@,
        SpinnerStyle::Toggle4 => "Toggle4"@,
        SpinnerStyle::Toggle5 => "Toggle5"@,
        SpinnerStyle::Toggle6 => "Toggle6"@,
        SpinnerStyle::Toggle7 => "Toggle7"@,
        SpinnerStyle::Toggle8 => "Toggle8"@,
        SpinnerStyle::Toggle9 => "Toggle9"@,
        SpinnerStyle::Triangle => "Triangle"@,
        SpinnerStyle::Weather => "Weather"@,
    }
}

impl SpinnerStyle {
    /// The style's name, as written in its variant.
    pub fn name(&self) -> (r: &'static str)
        ensures
            r@ == spec_style_name(*self),
    {
        match self {
            SpinnerStyle::Aesthetic => "Aesthetic",
            SpinnerStyle::Arc => "Arc",
            SpinnerStyle::Arrow => "Arrow",
            SpinnerStyle::Arrow2 => "Arrow2",
            SpinnerStyle::Arrow3 => "Arrow3",
            SpinnerStyle::Balloon => "Balloon",
            SpinnerStyle::Balloon2 => "Balloon2",
            SpinnerStyle::BetaWave => "BetaWave",
            SpinnerStyle::BluePulse => "BluePulse",
            SpinnerStyle::Bounce => "Bounce",
            SpinnerStyle::BouncingBall => "BouncingBall",
            SpinnerStyle::BouncingBar => "BouncingBar",
            SpinnerStyle::BoxBounce => "BoxBounce",
            SpinnerStyle::BoxBounce2 => "BoxBounce2",
            SpinnerStyle::Christmas => "Christmas",
            SpinnerStyle::Circle => "Circle",
            SpinnerStyle::CircleHalves => "CircleHalves",
            SpinnerStyle::CircleQuarters => "CircleQuarters",
            SpinnerStyle::Clock => "Clock",
            SpinnerStyle::Dots => "Dots",
            SpinnerStyle::Dots10 => "Dots10",
            SpinnerStyle::Dots11 => "Dots11",
            SpinnerStyle::Dots12 => "Dots12",
            SpinnerStyle::Dots13 => "Dots13",
            SpinnerStyle::Dots2 => "Dots2",
            SpinnerStyle::Dots3 => "Dots3",
            SpinnerStyle::Dots4 => "Dots4",
            SpinnerStyle::Dots5 => "Dots5",
            SpinnerStyle::Dots6 => "Dots6",
            SpinnerStyle::Dots7 => "Dots7",
            SpinnerStyle::Dots8 => "Dots8",
            SpinnerStyle::Dots8Bit => "Dots8Bit",
            SpinnerStyle::Dots9 => "Dots9",
            SpinnerStyle::Dqpb => "Dqpb",
            SpinnerStyle::Earth => "Earth",
            SpinnerStyle::FingerDance => "FingerDance",
            SpinnerStyle::FistBump => "FistBump",
            SpinnerStyle::Flip => "Flip",
            SpinnerStyle::Grenade => "Grenade",
            SpinnerStyle::GrowHorizontal => "GrowHorizontal",
            SpinnerStyle::GrowVertical => "GrowVertical",
            SpinnerStyle::Hamburger => "Hamburger",
            SpinnerStyle::Hearts => "Hearts",
            SpinnerStyle::Layer => "Layer",
            SpinnerStyle::Line => "Line",
            SpinnerStyle::Line2 => "Line2",
            SpinnerStyle::Material => "Material",
            SpinnerStyle::Mindblown => "Mindblown",
            SpinnerStyle::Monkey => "Monkey",
            SpinnerStyle::Moon => "Moon",
            SpinnerStyle::Noise => "Noise",
            SpinnerStyle::OrangeBluePulse => "OrangeBluePulse",
            SpinnerStyle::OrangePulse => "OrangePulse",
            SpinnerStyle::Pipe => "Pipe",
            SpinnerStyle::Point => "Point",
            SpinnerStyle::Pong => "Pong",
            SpinnerStyle::Runner => "Runner",
            SpinnerStyle::Sand => "Sand",
            SpinnerStyle::Shark => "Shark",
            SpinnerStyle::SimpleDots => "SimpleDots",
            SpinnerStyle::SimpleDotsScrolling => "SimpleDotsScrolling",
            SpinnerStyle::Smiley => "Smiley",
            SpinnerStyle::SoccerHeader => "SoccerHeader",
            SpinnerStyle::Speaker => "Speaker",
            SpinnerStyle::SquareCorners => "SquareCorners",
            SpinnerStyle::Squish => "Squish",
            SpinnerStyle::Star => "Star",
            SpinnerStyle::Star2 => "Star2",
            SpinnerStyle::TimeTravel => "TimeTravel",
            SpinnerStyle::Toggle => "Toggle",
            SpinnerStyle::Toggle10 => "Toggle10",
            SpinnerStyle::Toggle11 => "Toggle11",
            SpinnerStyle::Toggle12 => "Toggle12",
            SpinnerStyle::Toggle13 => "Toggle13",
            SpinnerStyle::Toggle2 => "Toggle2",
            SpinnerStyle::Toggle3 => "Toggle3",
            SpinnerStyle::Toggle4 => "Toggle4",
            SpinnerStyle::Toggle5 => "Toggle5",
            SpinnerStyle::Toggle6 => "Toggle6",
            SpinnerStyle::Toggle7 => "Toggle7",
            SpinnerStyle::Toggle8 => "Toggle8",
            SpinnerStyle::Toggle9 => "Toggle9",
            SpinnerStyle::Triangle => "Triangle",
            SpinnerStyle::Weather => "Weather",
        }
    }

    /// Every built-in style, in catalog order.
    #[verifier::rlimit(60)]
    pub fn all() -> (r: Vec<SpinnerStyle>)
        ensures
            r@.len() == 84,
    {
        let mut v: Vec<SpinnerStyle> = Vec::new();
        v.push(SpinnerStyle::Aesthetic);
        v.push(SpinnerStyle::Arc);
        v.push(SpinnerStyle::Arrow);
        v.push(SpinnerStyle::Arrow2);
        v.push(SpinnerStyle::Arrow3);
        v.push(SpinnerStyle::Balloon);
        v.push(SpinnerStyle::Balloon2);
        v.push(SpinnerStyle::BetaWave);
        v.push(SpinnerStyle::BluePulse);
        v.push(SpinnerStyle::Bounce);
        v.push(SpinnerStyle::BouncingBall);
        v.push(SpinnerStyle::BouncingBar);
        v.push(SpinnerStyle::BoxBounce);
        v.push(SpinnerStyle::BoxBounce2);
        v.push(SpinnerStyle::Christmas);
        v.push(SpinnerStyle::Circle);
        v.push(SpinnerStyle::CircleHalves);
        v.push(SpinnerStyle::CircleQuarters);
        v.push(SpinnerStyle::Clock);
        v.push(SpinnerStyle::Dots);
        v.push(SpinnerStyle::Dots10);
        v.push(SpinnerStyle::Dots11);
        v.push(SpinnerStyle::Dots12);
        v.push(SpinnerStyle::Dots13);
        v.push(SpinnerStyle::Dots2);
        v.push(SpinnerStyle::Dots3);
        v.push(SpinnerStyle::Dots4);
        v.push(SpinnerStyle::Dots5);
        v.push(SpinnerStyle::Dots6);
        v.push(SpinnerStyle::Dots7);
        v.push(SpinnerStyle::Dots8);
        v.push(SpinnerStyle::Dots8Bit);
        v.push(SpinnerStyle::Dots9);
        v.push(SpinnerStyle::Dqpb);
        v.push(SpinnerStyle::Earth);
        v.push(SpinnerStyle::FingerDance);
        v.push(SpinnerStyle::FistBump);
        v.push(SpinnerStyle::Flip);
        v.push(SpinnerStyle::Grenade);
        v.push(SpinnerStyle::GrowHorizontal);
        v.push(SpinnerStyle::GrowVertical);
        v.push(SpinnerStyle::Hamburger);
        v.push(SpinnerStyle::Hearts);
        v.push(SpinnerStyle::Layer);
        v.push(SpinnerStyle::Line);
        v.push(SpinnerStyle::Line2);
        v.push(SpinnerStyle::Material);
        v.push(SpinnerStyle::Mindblown);
        v.push(SpinnerStyle::Monkey);
        v.push(SpinnerStyle::Moon);
        v.push(SpinnerStyle::Noise);
        v.push(SpinnerStyle::OrangeBluePulse);
        v.push(SpinnerStyle::OrangePulse);
        v.push(SpinnerStyle::Pipe);
        v.push(SpinnerStyle::Point);
        v.push(SpinnerStyle::Pong);
        v.push(SpinnerStyle::Runner);
        v.push(SpinnerStyle::Sand);
        v.push(SpinnerStyle::Shark);
        v.push(SpinnerStyle::SimpleDots);
        v.push(SpinnerStyle::SimpleDotsScrolling);
        v.push(SpinnerStyle::Smiley);
        v.push(SpinnerStyle::SoccerHeader);
        v.push(SpinnerStyle::Speaker);
        v.push(SpinnerStyle::SquareCorners);
        v.push(SpinnerStyle::Squish);
        v.push(SpinnerStyle::Star);
        v.push(SpinnerStyle::Star2);
        v.push(SpinnerStyle::TimeTravel);
        v.push(SpinnerStyle::Toggle);
        v.push(SpinnerStyle::Toggle10);
        v.push(SpinnerStyle::Toggle11);
        v.push(SpinnerStyle::Toggle12);
        v.push(SpinnerStyle::Toggle13);
        v.push(SpinnerStyle::Toggle2);
        v.push(SpinnerStyle::Toggle3);
        v.push(SpinnerStyle::Toggle4);
        v.push(SpinnerStyle::Toggle5);
        v.push(SpinnerStyle::Toggle6);
        v.push(SpinnerStyle::Toggle7);
        v.push(SpinnerStyle::Toggle8);
        v.push(SpinnerStyle::Toggle9);
        v.push(SpinnerStyle::Triangle);
        v.push(SpinnerStyle::Weather);
        v
    }
}

/// The style whose name is `s`, if any.
pub open spec fn spec_style_from_name(s: Seq<char>) -> Option<SpinnerStyle> {
    if s == "Aesthetic"@ { Some(SpinnerStyle::Aesthetic) }
    else if s == "Arc"@ { Some(SpinnerStyle::Arc) }
    else if s == "Arrow"@ { Some(SpinnerStyle::Arrow) }
    else if s == "Arrow2"@ { Some(SpinnerStyle::Arrow2) }
    else if s == "Arrow3"@ { Some(SpinnerStyle::Arrow3) }
    else if s == "Balloon"@ { Some(SpinnerStyle::Balloon) }
    else if s == "Balloon2"@ { Some(SpinnerStyle::Balloon2) }
    else if s == "BetaWave"@ { Some(SpinnerStyle::BetaWave) }
    else if s == "BluePulse"@ { Some(SpinnerStyle::BluePulse) }
    else if s == "Bounce"@ { Some(SpinnerStyle::Bounce) }
    else if s == "BouncingBall"@ { Some(SpinnerStyle::BouncingBall) }
    else if s == "BouncingBar"@ { Some(SpinnerStyle::BouncingBar) }
    else if s == "BoxBounce"@ { Some(SpinnerStyle::BoxBounce) }
    else if s == "BoxBounce2"@ { Some(SpinnerStyle::BoxBounce2) }
    else if s == "Christmas"@ { Some(SpinnerStyle::Christmas) }
    else if s == "Circle"@ { Some(SpinnerStyle::Circle) }
    else if s == "CircleHalves"@ { Some(SpinnerStyle::CircleHalves) }
    else if s == "CircleQuarters"@ { Some(SpinnerStyle::CircleQuarters) }
    else if s == "Clock"@ { Some(SpinnerStyle::Clock) }
    else if s == "Dots"@ { Some(SpinnerStyle::Dots) }
    else if s == "Dots10"@ { Some(SpinnerStyle::Dots10) }
    else if s == "Dots11"@ { Some(SpinnerStyle::Dots11) }
    else if s == "Dots12"@ { Some(SpinnerStyle::Dots12) }
    else if s == "Dots13"@ { Some(SpinnerStyle::Dots13) }
    else if s == "Dots2"@ { Some(SpinnerStyle::Dots2) }
    else if s == "Dots3"@ { Some(SpinnerStyle::Dots3) }
    else if s == "Dots4"@ { Some(SpinnerStyle::Dots4) }
    else if s == "Dots5"@ { Some(SpinnerStyle::Dots5) }
    else if s == "Dots6"@ { Some(SpinnerStyle::Dots6) }
    else if s == "Dots7"@ { Some(SpinnerStyle::Dots7) }
    else if s == "Dots8"@ { Some(SpinnerStyle::Dots8) }
    else if s == "Dots8Bit"@ { Some(SpinnerStyle::Dots8Bit) }
    else if s == "Dots9"@ { Some(SpinnerStyle::Dots9) }
    else if s == "Dqpb"@ { Some(SpinnerStyle::Dqpb) }
    else if s == "Earth"@ { Some(SpinnerStyle::Earth) }
    else if s == "FingerDance"@ { Some(SpinnerStyle::FingerDance) }
    else if s == "FistBump"@ { Some(SpinnerStyle::FistBump) }
    else if s == "Flip"@ { Some(SpinnerStyle::Flip) }
    else if s == "Grenade"@ { Some(SpinnerStyle::Grenade) }
    else if s == "GrowHorizontal"@ { Some(SpinnerStyle::GrowHorizontal) }
    else if s == "GrowVertical"@ { Some(SpinnerStyle::GrowVertical) }
    else if s == "Hamburger"@ { Some(SpinnerStyle::Hamburger) }
    else if s == "Hearts"@ { Some(SpinnerStyle::Hearts) }
    else if s == "Layer"@ { Some(SpinnerStyle::Layer) }
    else if s == "Line"@ { Some(SpinnerStyle::Line) }
    else if s == "Line2"@ { Some(SpinnerStyle::Line2) }
    else if s == "Material"@ { Some(SpinnerStyle::Material) }
    else if s == "Mindblown"@ { Some(SpinnerStyle::Mindblown) }
    else if s == "Monkey"@ { Some(SpinnerStyle::Monkey) }
    else if s == "Moon"@ { Some(SpinnerStyle::Moon) }
    else if s == "Noise"@ { Some(SpinnerStyle::Noise) }
    else if s == "OrangeBluePulse"@ { Some(SpinnerStyle::OrangeBluePulse) }
    else if s == "OrangePulse"@ { Some(SpinnerStyle::OrangePulse) }
    else if s == "Pipe"@ { Some(SpinnerStyle::Pipe) }
    else if s == "Point"@ { Some(SpinnerStyle::Point) }
    else if s == "Pong"@ { Some(SpinnerStyle::Pong) }
    else if s == "Runner"@ { Some(SpinnerStyle::Runner) }
    else if s == "Sand"@ { Some(SpinnerStyle::Sand) }
    else if s == "Shark"@ { Some(SpinnerStyle::Shark) }
    else if s == "SimpleDots"@ { Some(SpinnerStyle::SimpleDots) }
    else if s == "SimpleDotsScrolling"@ { Some(SpinnerStyle::SimpleDotsScrolling) }
    else if s == "Smiley"@ { Some(SpinnerStyle::Smiley) }
    else if s == "SoccerHeader"@ { Some(SpinnerStyle::SoccerHeader) }
    else if s == "Speaker"@ { Some(SpinnerStyle::Speaker) }
    else if s == "SquareCorners"@ { Some(SpinnerStyle::SquareCorners) }
    else if s == "Squish"@ { Some(SpinnerStyle::Squish) }
    else if s == "Star"@ { Some(SpinnerStyle::Star) }
    else if s == "Star2"@ { Some(SpinnerStyle::Star2) }
    else if s == "TimeTravel"@ { Some(SpinnerStyle::TimeTravel) }
    else if s == "Toggle"@ { Some(SpinnerStyle::Toggle) }
    else if s == "Toggle10"@ { Some(SpinnerStyle::Toggle10) }
    else if s == "Toggle11"@ { Some(SpinnerStyle::Toggle11) }
    else if s == "Toggle12"@ { Some(SpinnerStyle::Toggle12) }
    else if s == "Toggle13"@ { Some(SpinnerStyle::Toggle13) }
    else if s == "Toggle2"@ { Some(SpinnerStyle::Toggle2) }
    else if s == "Toggle3"@ { Some(SpinnerStyle::Toggle3) }
    else if s == "Toggle4"@ { Some(SpinnerStyle::Toggle4) }
    else if s == "Toggle5"@ { Some(SpinnerStyle::Toggle5) }
    else if s == "Toggle6"@ { Some(SpinnerStyle::Toggle6) }
    else if s == "Toggle7"@ { Some(SpinnerStyle::Toggle7) }
    else if s == "Toggle8"@ { Some(SpinnerStyle::Toggle8) }
    else if s == "Toggle9"@ { Some(SpinnerStyle::Toggle9) }
    else if s == "Triangle"@ { Some(SpinnerStyle::Triangle) }
    else if s == "Weather"@ { Some(SpinnerStyle::Weather) }
    else { None }
}

impl SpinnerStyle {
    /// Reads a style from its name, as written in the variant.
    pub fn from_name(value: &str) -> (r: Option<SpinnerStyle>)
        ensures
            r == spec_style_from_name(value@),
    {
        if str_eq(value, "Aesthetic") { Some(SpinnerStyle::Aesthetic) }
        else if str_eq(value, "Arc") { Some(SpinnerStyle::Arc) }
        else if str_eq(value, "Arrow") { Some(SpinnerStyle::Arrow) }
        else if str_eq(value, "Arrow2") { Some(SpinnerStyle::Arrow2) }
        else if str_eq(value, "Arrow3") { Some(SpinnerStyle::Arrow3) }
        else if str_eq(value, "Balloon") { Some(SpinnerStyle::Balloon) }
        else if str_eq(value, "Balloon2") { Some(SpinnerStyle::Balloon2) }
        else if str_eq(value, "BetaWave") { Some(SpinnerStyle::BetaWave) }
        else if str_eq(value, "BluePulse") { Some(SpinnerStyle::BluePulse) }
        else if str_eq(value, "Bounce") { Some(SpinnerStyle::Bounce) }
        else if str_eq(value, "BouncingBall") { Some(SpinnerStyle::BouncingBall) }
        else if str_eq(value, "BouncingBar") { Some(SpinnerStyle::BouncingBar) }
        else if str_eq(value, "BoxBounce") { Some(SpinnerStyle::BoxBounce) }
        else if str_eq(value, "BoxBounce2") { Some(SpinnerStyle::BoxBounce2) }
        else if str_eq(value, "Christmas") { Some(SpinnerStyle::Christmas) }
        else if str_eq(value, "Circle") { Some(SpinnerStyle::Circle) }
        else if str_eq(value, "CircleHalves") { Some(SpinnerStyle::CircleHalves) }
        else if str_eq(value, "CircleQuarters") { Some(SpinnerStyle::CircleQuarters) }
        else if str_eq(value, "Clock") { Some(SpinnerStyle::Clock) }
        else if str_eq(value, "Dots") { Some(SpinnerStyle::Dots) }
        else if str_eq(value, "Dots10") { Some(SpinnerStyle::Dots10) }
        else if str_eq(value, "Dots11") { Some(SpinnerStyle::Dots11) }
        else if str_eq(value, "Dots12") { Some(SpinnerStyle::Dots12) }
        else if str_eq(value, "Dots13") { Some(SpinnerStyle::Dots13) }
        else if str_eq(value, "Dots2") { Some(SpinnerStyle::Dots2) }
        else if str_eq(value, "Dots3") { Some(SpinnerStyle::Dots3) }
        else if str_eq(value, "Dots4") { Some(SpinnerStyle::Dots4) }
        else if str_eq(value, "Dots5") { Some(SpinnerStyle::Dots5) }
        else if str_eq(value, "Dots6") { Some(SpinnerStyle::Dots6) }
        else if str_eq(value, "Dots7") { Some(SpinnerStyle::Dots7) }
        else if str_eq(value, "Dots8") { Some(SpinnerStyle::Dots8) }
        else if str_eq(value, "Dots8Bit") { Some(SpinnerStyle::Dots8Bit) }
        else if str_eq(value, "Dots9") { Some(SpinnerStyle::Dots9) }
        else if str_eq(value, "Dqpb") { Some(SpinnerStyle::Dqpb) }
        else if str_eq(value, "Earth") { Some(SpinnerStyle::Earth) }
        else if str_eq(value, "FingerDance") { Some(SpinnerStyle::FingerDance) }
        else if str_eq(value, "FistBump") { Some(SpinnerStyle::FistBump) }
        else if str_eq(value, "Flip") { Some(SpinnerStyle::Flip) }
        else if str_eq(value, "Grenade") { Some(SpinnerStyle::Grenade) }
        else if str_eq(value, "GrowHorizontal") { Some(SpinnerStyle::GrowHorizontal) }
        else if str_eq(value, "GrowVertical") { Some(SpinnerStyle::GrowVertical) }
        else if str_eq(value, "Hamburger") { Some(SpinnerStyle::Hamburger) }
        else if str_eq(value, "Hearts") { Some(SpinnerStyle::Hearts) }
        else if str_eq(value, "Layer") { Some(SpinnerStyle::Layer) }
        else if str_eq(value, "Line") { Some(SpinnerStyle::Line) }
        else if str_eq(value, "Line2") { Some(SpinnerStyle::Line2) }
        else if str_eq(value, "Material") { Some(SpinnerStyle::Material) }
        else if str_eq(value, "Mindblown") { Some(SpinnerStyle::Mindblown) }
        else if str_eq(value, "Monkey") { Some(SpinnerStyle::Monkey) }
        else if str_eq(value, "Moon") { Some(SpinnerStyle::Moon) }
        else if str_eq(value, "Noise") { Some(SpinnerStyle::Noise) }
        else if str_eq(value, "OrangeBluePulse") { Some(SpinnerStyle::OrangeBluePulse) }
        else if str_eq(value, "OrangePulse") { Some(SpinnerStyle::OrangePulse) }
        else if str_eq(value, "Pipe") { Some(SpinnerStyle::Pipe) }
        else if str_eq(value, "Point") { Some(SpinnerStyle::Point) }
        else if str_eq(value, "Pong") { Some(SpinnerStyle::Pong) }
        else if str_eq(value, "Runner") { Some(SpinnerStyle::Runner) }
        else if str_eq(value, "Sand") { Some(SpinnerStyle::Sand) }
        else if str_eq(value, "Shark") { Some(SpinnerStyle::Shark) }
        else if str_eq(value, "SimpleDots") { Some(SpinnerStyle::SimpleDots) }
        else if str_eq(value, "SimpleDotsScrolling") { Some(SpinnerStyle::SimpleDotsScrolling) }
        else if str_eq(value, "Smiley") { Some(SpinnerStyle::Smiley) }
        else if str_eq(value, "SoccerHeader") { Some(SpinnerStyle::SoccerHeader) }
        else if str_eq(value, "Speaker") { Some(SpinnerStyle::Speaker) }
        else if str_eq(value, "SquareCorners") { Some(SpinnerStyle::SquareCorners) }
        else if str_eq(value, "Squish") { Some(SpinnerStyle::Squish) }
        else if str_eq(value, "Star") { Some(SpinnerStyle::Star) }
        else if str_eq(value, "Star2") { Some(SpinnerStyle::Star2) }
        else if str_eq(value, "TimeTravel") { Some(SpinnerStyle::TimeTravel) }
        else if str_eq(value, "Toggle") { Some(SpinnerStyle::Toggle) }
        else if str_eq(value, "Toggle10") { Some(SpinnerStyle::Toggle10) }
        else if str_eq(value, "Toggle11") { Some(SpinnerStyle::Toggle11) }
        else if str_eq(value, "Toggle12") { Some(SpinnerStyle::Toggle12) }
        else if str_eq(value, "Toggle13") { Some(SpinnerStyle::Toggle13) }
        else if str_eq(value, "Toggle2") { Some(SpinnerStyle::Toggle2) }
        else if str_eq(value, "Toggle3") { Some(SpinnerStyle::Toggle3) }
        else if str_eq(value, "Toggle4") { Some(SpinnerStyle::Toggle4) }
        else if str_eq(value, "Toggle5") { Some(SpinnerStyle::Toggle5) }
        else if str_eq(value, "Toggle6") { Some(SpinnerStyle::Toggle6) }
        else if str_eq(value, "Toggle7") { Some(SpinnerStyle::Toggle7) }
        else if str_eq(value, "Toggle8") { Some(SpinnerStyle::Toggle8) }
        else if str_eq(value, "Toggle9") { Some(SpinnerStyle::Toggle9) }
        else if str_eq(value, "Triangle") { Some(SpinnerStyle::Triangle) }
        else if str_eq(value, "Weather") { Some(SpinnerStyle::Weather) }
        else { None }
    }
}

/// The glyphs of one catalog entry, as owned strings holding the same
/// characters.
fn frames_of<const N: usize>(xs: &[&str; N]) -> (r: Vec<String>)
    requires
        N >= 1,
    ensures
        r@.len() == N as int,
        forall|i: int| 0 <= i < N as int ==> #[trigger] r@[i]@ == xs@[i]@,
{
    let mut v: Vec<String> = Vec::new();
    let mut i: usize = 0;
    while i < N
        invariant
            i <= N,
            v@.len() == i as int,
            forall|j: int| 0 <= j < i as int ==> #[trigger] v@[j]@ == xs@[j]@,
        decreases N - i,
    {
        v.push(String::from_str(xs[i]));
        i = i + 1;
    }
    v
}

/// Looks up the catalog entry of `name`: an ordered, non-empty frame set
/// and a positive default frame duration in milliseconds. The lookup is
/// total over the built-in styles, and the entry of the default style is
/// pinned down to its four glyphs.
pub fn get_spinner_data(name: &SpinnerStyle) -> (r: SpinnerData)
    ensures
        r.frames@.len() > 0,
        r.frame_duration > 0,
        *name == SpinnerStyle::CircleHalves ==> {
            &&& r.frames@.len() == 4
            &&& r.frames@[0]@ == "\u{25d0}"@
            &&& r.frames@[1]@ == "\u{25d3}"@
            &&& r.frames@[2]@ == "\u{25d1}"@
            &&& r.frames@[3]@ == "\u{25d2}"@
            &&& r.frame_duration == 50
        },
{
    match name {
        SpinnerStyle::Aesthetic => SpinnerData {
            frames: frames_of(&["▰▱▱▱▱▱▱", "▰▰▱▱▱▱▱", "▰▰▰▱▱▱▱", "▰▰▰▰▱▱▱", "▰▰▰▰▰▱▱", "▰▰▰▰▰▰▱", "▰▰▰▰▰▰▰"]),
            frame_duration: 80,
        },
        SpinnerStyle::Arc => SpinnerData {
            frames: frames_of(&["◜", "◠", "◝", "◞", "◡", "◟"]),
            frame_duration: 100,
        },
        SpinnerStyle::Arrow => SpinnerData {
            frames: frames_of(&["←", "↖", "↑", "↗", "→", "↘", "↓", "↙"]),
            frame_duration: 100,
        },
        SpinnerStyle::Arrow2 => SpinnerData {
            frames: frames_of(&["⬆️ ", "↗️ ", "➡️ ", "↘️ ", "⬇️ ", "↙️ ", "⬅️ ", "↖️ "]),
            frame_duration: 80,
        },
        SpinnerStyle::Arrow3 => SpinnerData {
            frames: frames_of(&["▹▹▹▹▹", "▸▹▹▹▹", "▹▸▹▹▹", "▹▹▸▹▹", "▹▹▹▸▹", "▹▹▹▹▸"]),
            frame_duration: 120,
        },
        SpinnerStyle::Balloon => SpinnerData {
            frames: frames_of(&[" ", ".", "o", "O", "@", "*", " "]),
            frame_duration: 140,
        },
        SpinnerStyle::Balloon2 => SpinnerData {
            frames: frames_of(&[".", "o", "O", "°", "O", "o", "."]),
            frame_duration: 120,
        },
        SpinnerStyle::BetaWave => SpinnerData {
            frames: frames_of(&["ρββββββ", "βρβββββ", "ββρββββ", "βββρβββ", "ββββρββ", "βββββρβ", "ββββββρ"]),
            frame_duration: 80,
        },
        SpinnerStyle::BluePulse => SpinnerData {
            frames: frames_of(&["🔹", "🔷", "🔵", "🔵", "🔷"]),
            frame_duration: 100,
        },
        SpinnerStyle::Bounce => SpinnerData {
            frames: frames_of(&["⠁", "⠂", "⠄", "⠂"]),
            frame_duration: 120,
        },
        SpinnerStyle::BouncingBall => SpinnerData {
            frames: frames_of(&[
                "( ●    )", "(  ●   )", "(   ●  )", "(    ● )", "(     ●)",
                "(    ● )", "(   ●  )", "(  ●   )", "( ●    )", "(●     )",
            ]),
            frame_duration: 80,
        },
        SpinnerStyle::BouncingBar => SpinnerData {
            frames: frames_of(&[
                "[    ]", "[=   ]", "[==  ]", "[=== ]", "[====]", "[ ===]", "[  ==]", "[   =]",
                "[    ]", "[   =]", "[  ==]", "[ ===]", "[====]", "[=== ]", "[==  ]", "[=   ]",
            ]),
            frame_duration: 80,
        },
        SpinnerStyle::BoxBounce => SpinnerData {
            frames: frames_of(&["▖", "▘", "▝", "▗"]),
            frame_duration: 120,
        },
        SpinnerStyle::BoxBounce2 => SpinnerData {
            frames: frames_of(&["▌", "▀", "▐", "▄"]),
            frame_duration: 100,
        },
        SpinnerStyle::Christmas => SpinnerData {
            frames: frames_of(&["🌲", "🎄"]),
            frame_duration: 400,
        },
        SpinnerStyle::Circle => SpinnerData {
            frames: frames_of(&["◡", "⊙", "◠"]),
            frame_duration: 120,
        },
        SpinnerStyle::CircleHalves => SpinnerData {
            frames: frames_of(&["◐", "◓", "◑", "◒"]),
            frame_duration: 50,
        },
        SpinnerStyle::CircleQuarters => SpinnerData {
            frames: frames_of(&["◴", "◷", "◶", "◵"]),
            frame_duration: 120,
        },
        SpinnerStyle::Clock => SpinnerData {
            frames: frames_of(&[
                "🕛 ", "🕐 ", "🕑 ", "🕒 ", "🕓 ", "🕔 ", "🕕 ", "🕖 ", "🕗 ", "🕘 ", "🕙 ", "🕚 ",
            ]),
            frame_duration: 100,
        },
        SpinnerStyle::Dots => SpinnerData {
            frames: frames_of(&["⠋", "⠙", "⠹", "⠸", "⠼", "⠴", "⠦", "⠧", "⠇", "⠏"]),
            frame_duration: 80,
        },
        SpinnerStyle::Dots10 => SpinnerData {
            frames: frames_of(&["⢄", "⢂", "⢁", "⡁", "⡈", "⡐", "⡠"]),
            frame_duration: 80,
        },
        SpinnerStyle::Dots11 => SpinnerData {
            frames: frames_of(&["⠁", "⠂", "⠄", "⡀", "⢀", "⠠", "⠐", "⠈"]),
            frame_duration: 100,
        },
        SpinnerStyle::Dots12 => SpinnerData {
            frames: frames_of(&[
                "⢀⠀", "⡀⠀", "⠄⠀", "⢂⠀", "⡂⠀", "⠅⠀", "⢃⠀", "⡃⠀", "⠍⠀", "⢋⠀", "⡋⠀", "⠍⠁",
                "⢋⠁", "⡋⠁", "⠍⠉", "⠋⠉", "⠋⠉", "⠉⠙", "⠉⠙", "⠉⠩", "⠈⢙", "⠈⡙", "⢈⠩", "⡀⢙",
                "⠄⡙", "⢂⠩", "⡂⢘", "⠅⡘", "⢃⠨", "⡃⢐", "⠍⡐", "⢋⠠", "⡋⢀", "⠍⡁", "⢋⠁", "⡋⠁",
                "⠍⠉", "⠋⠉", "⠋⠉", "⠉⠙", "⠉⠙", "⠉⠩", "⠈⢙", "⠈⡙", "⠈⠩", "⠀⢙", "⠀⡙", "⠀⠩",
                "⠀⢘", "⠀⡘", "⠀⠨", "⠀⢐", "⠀⡐", "⠀⠠", "⠀⢀", "⠀⡀",
            ]),
            frame_duration: 80,
        },
        SpinnerStyle::Dots13 => SpinnerData {
            frames: frames_of(&["⣼", "⣹", "⢻", "⠿", "⡟", "⣏", "⣧", "⣶"]),
            frame_duration: 80,
        },
        SpinnerStyle::Dots2 => SpinnerData {
            frames: frames_of(&["⣾", "⣽", "⣻", "⢿", "⡿", "⣟", "⣯", "⣷"]),
            frame_duration: 80,
        },
        SpinnerStyle::Dots3 => SpinnerData {
            frames: frames_of(&["⠋", "⠙", "⠚", "⠞", "⠖", "⠦", "⠴", "⠲", "⠳", "⠓"]),
            frame_duration: 80,
        },
        SpinnerStyle::Dots4 => SpinnerData {
            frames: frames_of(&[
                "⠄", "⠆", "⠇", "⠋", "⠙", "⠸", "⠰", "⠠", "⠰", "⠸", "⠙", "⠋", "⠇", "⠆",
            ]),
            frame_duration: 80,
        },
        SpinnerStyle::Dots5 => SpinnerData {
            frames: frames_of(&[
                "⠋", "⠙", "⠚", "⠒", "⠂", "⠂", "⠒", "⠲", "⠴", "⠦", "⠖", "⠒", "⠐", "⠐", "⠒", "⠓", "⠋",
            ]),
            frame_duration: 80,
        },
        SpinnerStyle::Dots6 => SpinnerData {
            frames: frames_of(&[
                "⠁", "⠉", "⠙", "⠚", "⠒", "⠂", "⠂", "⠒", "⠲", "⠴", "⠤", "⠄", "⠄", "⠤", "⠴", "⠲",
                "⠒", "⠂", "⠂", "⠒", "⠚", "⠙", "⠉", "⠁",
            ]),
            frame_duration: 80,
        },
        SpinnerStyle::Dots7 => SpinnerData {
            frames: frames_of(&[
                "⠈", "⠉", "⠋", "⠓", "⠒", "⠐", "⠐", "⠒", "⠖", "⠦", "⠤", "⠠", "⠠", "⠤", "⠦", "⠖",
                "⠒", "⠐", "⠐", "⠒", "⠓", "⠋", "⠉", "⠈",
            ]),
            frame_duration: 80,
        },
        SpinnerStyle::Dots8 => SpinnerData {
            frames: frames_of(&[
                "⠁", "⠁", "⠉", "⠙", "⠚", "⠒", "⠂", "⠂", "⠒", "⠲", "⠴", "⠤", "⠄", "⠄", "⠤", "⠠",
                "⠠", "⠤", "⠦", "⠖", "⠒", "⠐", "⠐", "⠒", "⠓", "⠋", "⠉", "⠈", "⠈",
            ]),
            frame_duration: 80,
        },
        SpinnerStyle::Dots8Bit => SpinnerData {
            frames: frames_of(&[
                "⠀", "⠁", "⠂", "⠃", "⠄", "⠅", "⠆", "⠇", "⡀", "⡁", "⡂", "⡃", "⡄", "⡅", "⡆", "⡇",
                "⠈", "⠉", "⠊", "⠋", "⠌", "⠍", "⠎", "⠏", "⡈", "⡉", "⡊", "⡋", "⡌", "⡍", "⡎", "⡏",
                "⠐", "⠑", "⠒", "⠓", "⠔", "⠕", "⠖", "⠗", "⡐", "⡑", "⡒", "⡓", "⡔", "⡕", "⡖", "⡗",
                "⠘", "⠙", "⠚", "⠛", "⠜", "⠝", "⠞", "⠟", "⡘", "⡙", "⡚", "⡛", "⡜", "⡝", "⡞", "⡟",
            ]),
            frame_duration: 80,
        },
        SpinnerStyle::Dots9 => SpinnerData {
            frames: frames_of(&["⢹", "⢺", "⢼", "⣸", "⣇", "⡧", "⡗", "⡏"]),
            frame_duration: 80,
        },
        SpinnerStyle::Dqpb => SpinnerData {
            frames: frames_of(&["d", "q", "p", "b"]),
            frame_duration: 100,
        },
        SpinnerStyle::Earth => SpinnerData {
            frames: frames_of(&["🌍 ", "🌎 ", "🌏 "]),
            frame_duration: 180,
        },
        SpinnerStyle::FingerDance => SpinnerData {
            frames: frames_of(&["🤘 ", "🤟 ", "🖖 ", "✋ ", "🤚 ", "👆 "]),
            frame_duration: 160,
        },
        SpinnerStyle::FistBump => SpinnerData {
            frames: frames_of(&[
                "🤜　　　　🤛 ", "🤜　　　　🤛 ", "🤜　　　🤛 ", "　🤜　　🤛　 ",
                "　　🤜🤛　　 ", "　🤜✨🤛　　 ", "🤜　✨　🤛　 ",
            ]),
            frame_duration: 80,
        },
        SpinnerStyle::Flip => SpinnerData {
            frames: frames_of(&["_", "_", "_", "-", "`", "`", "'", "´", "-", "_", "_", "_"]),
            frame_duration: 70,
        },
        SpinnerStyle::Grenade => SpinnerData {
            frames: frames_of(&[
                "،  ", "′  ", " ´ ", " ‾ ", "  ⸌", "  ⸊", "  |", "  ⁎", "  ⁕", " ෴ ", "  ⁓",
                "   ", "   ", "   ",
            ]),
            frame_duration: 80,
        },
        SpinnerStyle::GrowHorizontal => SpinnerData {
            frames: frames_of(&[
                "▏", "▎", "▍", "▌", "▋", "▊", "▉", "▊", "▋", "▌", "▍", "▎",
            ]),
            frame_duration: 120,
        },
        SpinnerStyle::GrowVertical => SpinnerData {
            frames: frames_of(&["▁", "▃", "▄", "▅", "▆", "▇", "▆", "▅", "▄", "▃"]),
            frame_duration: 120,
        },
        SpinnerStyle::Hamburger => SpinnerData {
            frames: frames_of(&["☱", "☲", "☴"]),
            frame_duration: 100,
        },
        SpinnerStyle::Hearts => SpinnerData {
            frames: frames_of(&["💛 ", "💙 ", "💜 ", "💚 ", "❤️ "]),
            frame_duration: 100,
        },
        SpinnerStyle::Layer => SpinnerData {
            frames: frames_of(&["-", "=", "≡"]),
            frame_duration: 150,
        },
        SpinnerStyle::Line => SpinnerData {
            frames: frames_of(&["-", "\\", "|", "/"]),
            frame_duration: 130,
        },
        SpinnerStyle::Line2 => SpinnerData {
            frames: frames_of(&["⠂", "-", "–", "—", "–", "-"]),
            frame_duration: 100,
        },
        SpinnerStyle::Material => SpinnerData {
            frames: frames_of(&[
                "█▁▁▁▁▁▁▁▁▁", "██▁▁▁▁▁▁▁▁", "███▁▁▁▁▁▁▁", "████▁▁▁▁▁▁", "██████▁▁▁▁",
                "███████▁▁▁", "████████▁▁", "█████████▁", "██████████", "▁█████████",
                "▁▁████████", "▁▁▁███████", "▁▁▁▁██████", "▁▁▁▁▁█████", "▁▁▁▁▁▁████",
                "▁▁▁▁▁▁▁███", "▁▁▁▁▁▁▁▁██", "▁▁▁▁▁▁▁▁▁█", "▁▁▁▁▁▁▁▁▁▁",
            ]),
            frame_duration: 17,
        },
        SpinnerStyle::Mindblown => SpinnerData {
            frames: frames_of(&[
                "😐 ", "😐 ", "😮 ", "😮 ", "😦 ", "😦 ", "😧 ", "😧 ", "🤯 ", "💥 ", "✨ ",
                "　 ", "　 ", "　 ",
            ]),
            frame_duration: 160,
        },
        SpinnerStyle::Monkey => SpinnerData {
            frames: frames_of(&["🙈 ", "🙈 ", "🙉 ", "🙊 "]),
            frame_duration: 300,
        },
        SpinnerStyle::Moon => SpinnerData {
            frames: frames_of(&["🌑 ", "🌒 ", "🌓 ", "🌔 ", "🌕 ", "🌖 ", "🌗 ", "🌘 "]),
            frame_duration: 80,
        },
        SpinnerStyle::Noise => SpinnerData {
            frames: frames_of(&["▓", "▒", "░"]),
            frame_duration: 100,
        },
        SpinnerStyle::OrangeBluePulse => SpinnerData {
            frames: frames_of(&[
                "🔸 ", "🔶 ", "🟠 ", "🟠 ", "🔶 ", "🔹 ", "🔷 ", "🔵 ", "🔵 ", "🔷 ",
            ]),
            frame_duration: 100,
        },
        SpinnerStyle::OrangePulse => SpinnerData {
            frames: frames_of(&["🔸 ", "🔶 ", "🟠 ", "🟠 ", "🔶 "]),
            frame_duration: 100,
        },
        SpinnerStyle::Pipe => SpinnerData {
            frames: frames_of(&["┤", "┘", "┴", "└", "├", "┌", "┬", "┐"]),
            frame_duration: 100,
        },
        SpinnerStyle::Point => SpinnerData {
            frames: frames_of(&["∙∙∙", "●∙∙", "∙●∙", "∙∙●", "∙∙∙"]),
            frame_duration: 125,
        },
        SpinnerStyle::Pong => SpinnerData {
            frames: frames_of(&[
                "▐⠂       ▌", "▐⠈       ▌", "▐ ⠂      ▌", "▐ ⠠      ▌", "▐  ⡀     ▌",
                "▐  ⠠     ▌", "▐   ⠂    ▌", "▐   ⠈    ▌", "▐    ⠂   ▌", "▐    ⠠   ▌",
                "▐     ⡀  ▌", "▐     ⠠  ▌", "▐      ⠂ ▌", "▐      ⠈ ▌", "▐       ⠂▌",
                "▐       ⠠▌", "▐       ⡀▌", "▐      ⠠ ▌", "▐      ⠂ ▌", "▐     ⠈  ▌",
                "▐     ⠂  ▌", "▐    ⠠   ▌", "▐    ⡀   ▌", "▐   ⠠    ▌", "▐   ⠂    ▌",
                "▐  ⠈     ▌", "▐  ⠂     ▌", "▐ ⠠      ▌", "▐ ⡀      ▌", "▐⠠       ▌",
            ]),
            frame_duration: 80,
        },
        SpinnerStyle::Runner => SpinnerData {
            frames: frames_of(&["🚶 ", "🏃 "]),
            frame_duration: 140,
        },
        SpinnerStyle::Sand => SpinnerData {
            frames: frames_of(&[
                "⠁", "⠂", "⠄", "⡀", "⡈", "⡐", "⡠", "⣀", "⣁", "⣂", "⣄", "⣌", "⣔", "⣤", "⣥",
                "⣦", "⣮", "⣶", "⣷", "⣿", "⡿", "⠿", "⢟", "⠟", "⡛", "⠛", "⠫", "⢋", "⠋", "⠍",
                "⡉", "⠉", "⠑", "⠡", "⢁",
            ]),
            frame_duration: 80,
        },
        SpinnerStyle::Shark => SpinnerData {
            frames: frames_of(&[
                "▐|\\____________▌", "▐_|\\___________▌", "▐__|\\__________▌", "▐___|\\_________▌",
                "▐____|\\________▌", "▐_____|\\_______▌", "▐______|\\______▌", "▐_______|\\_____▌",
                "▐________|\\____▌", "▐_________|\\___▌", "▐__________|\\__▌", "▐___________|\\_▌",
                "▐____________|\\▌", "▐____________/|▌", "▐___________/|_▌", "▐__________/|__▌",
                "▐_________/|___▌", "▐________/|____▌", "▐_______/|_____▌", "▐______/|______▌",
                "▐_____/|_______▌", "▐____/|________▌", "▐___/|_________▌", "▐__/|__________▌",
                "▐_/|___________▌", "▐/|____________▌",
            ]),
            frame_duration: 120,
        },
        SpinnerStyle::SimpleDots => SpinnerData {
            frames: frames_of(&[".  ", ".. ", "...", "   "]),
            frame_duration: 400,
        },
        SpinnerStyle::SimpleDotsScrolling => SpinnerData {
            frames: frames_of(&[".  ", ".. ", "...", " ..", "  .", "   "]),
            frame_duration: 200,
        },
        SpinnerStyle::Smiley => SpinnerData {
            frames: frames_of(&["😄 ", "😝 "]),
            frame_duration: 200,
        },
        SpinnerStyle::SoccerHeader => SpinnerData {
            frames: frames_of(&[
                " 🧑⚽️       🧑 ", "🧑  ⚽️      🧑 ", "🧑   ⚽️     🧑 ", "🧑    ⚽️    🧑 ",
                "🧑     ⚽️   🧑 ", "🧑      ⚽️  🧑 ", "🧑       ⚽️🧑  ", "🧑      ⚽️  🧑 ",
                "🧑     ⚽️   🧑 ", "🧑    ⚽️    🧑 ", "🧑   ⚽️     🧑 ", "🧑  ⚽️      🧑 ",
            ]),
            frame_duration: 80,
        },
        SpinnerStyle::Speaker => SpinnerData {
            frames: frames_of(&["🔈 ", "🔉 ", "🔊 ", "🔉 "]),
            frame_duration: 160,
        },
        SpinnerStyle::SquareCorners => SpinnerData {
            frames: frames_of(&["◰ ", "◳ ", "◲ ", "◱ "]),
            frame_duration: 180,
        },
        SpinnerStyle::Squish => SpinnerData {
            frames: frames_of(&["╫", "╪"]),
            frame_duration: 100,
        },
        SpinnerStyle::Star => SpinnerData {
            frames: frames_of(&["✶", "✸", "✹", "✺", "✹", "✷"]),
            frame_duration: 70,
        },
        SpinnerStyle::Star2 => SpinnerData {
            frames: frames_of(&["+", "x", "*"]),
            frame_duration: 80,
        },
        SpinnerStyle::TimeTravel => SpinnerData {
            frames: frames_of(&[
                "🕛 ", "🕚 ", "🕙 ", "🕘 ", "🕗 ", "🕖 ", "🕕 ", "🕔 ", "🕓 ", "🕒 ", "🕑 ", "🕐 ",
            ]),
            frame_duration: 100,
        },
        SpinnerStyle::Toggle => SpinnerData {
            frames: frames_of(&["⊶", "⊷"]),
            frame_duration: 250,
        },
        SpinnerStyle::Toggle10 => SpinnerData {
            frames: frames_of(&["㊂", "㊀", "㊁"]),
            frame_duration: 100,
        },
        SpinnerStyle::Toggle11 => SpinnerData {
            frames: frames_of(&["⧇", "⧆"]),
            frame_duration: 50,
        },
        SpinnerStyle::Toggle12 => SpinnerData {
            frames: frames_of(&["☗", "☖"]),
            frame_duration: 120,
        },
        SpinnerStyle::Toggle13 => SpinnerData {
            frames: frames_of(&["=", "*", "-"]),
            frame_duration: 80,
        },
        SpinnerStyle::Toggle2 => SpinnerData {
            frames: frames_of(&["▫", "▪"]),
            frame_duration: 80,
        },
        SpinnerStyle::Toggle3 => SpinnerData {
            frames: frames_of(&["□", "■"]),
            frame_duration: 120,
        },
        SpinnerStyle::Toggle4 => SpinnerData {
            frames: frames_of(&["■", "□", "▪", "▫"]),
            frame_duration: 100,
        },
        SpinnerStyle::Toggle5 => SpinnerData {
            frames: frames_of(&["▮", "▯"]),
            frame_duration: 100,
        },
        SpinnerStyle::Toggle6 => SpinnerData {
            frames: frames_of(&["ဝ", "၀"]),
            frame_duration: 300,
        },
        SpinnerStyle::Toggle7 => SpinnerData {
            frames: frames_of(&["⦾", "⦿"]),
            frame_duration: 80,
        },
        SpinnerStyle::Toggle8 => SpinnerData {
            frames: frames_of(&["◍", "◌"]),
            frame_duration: 100,
        },
        SpinnerStyle::Toggle9 => SpinnerData {
            frames: frames_of(&["◉", "◎"]),
            frame_duration: 100,
        },
        SpinnerStyle::Triangle => SpinnerData {
            frames: frames_of(&["◢", "◣", "◤", "◥"]),
            frame_duration: 50,
        },
        SpinnerStyle::Weather => SpinnerData {
            frames: frames_of(&[
                "☀️ ", "☀️ ", "☀️ ", "🌤 ", "⛅️ ", "🌥 ", "☁️ ", "🌧 ", "🌨 ", "🌧 ", "🌨 ",
                "🌧 ", "🌨 ", "⛈ ", "🌨 ", "🌧 ", "🌨 ", "☁️ ", "🌥 ", "⛅️ ", "🌤 ", "☀️ ", "☀️ ",
            ]),
            frame_duration: 100,
        },
    }
}

} // verus!
