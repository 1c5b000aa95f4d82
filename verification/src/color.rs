//! The color descriptions of surfaces: how clients build them, and when a
//! surface's description takes effect.

use crate::messages::GeneratedHookRequest;
use crate::table::Table;
use crate::text;
use crate::text::append_decimal;
use vstd::prelude::*;
use vstd::string::*;

verus! {

/// How many sets of primaries have a name.
pub const NAMED_PRIMARIES: u32 = 10;

/// The chromaticities of named primaries, numbered from one: the x and y of
/// red, green, blue and white, in millionths. The seventh has equal-energy white.
pub open spec fn primaries_table(number: u32) -> Seq<i32> {
    match number {
        1 => seq![640000i32, 330000, 300000, 600000, 150000, 60000, 312700, 329000],
        2 => seq![670000i32, 330000, 210000, 710000, 140000, 80000, 310000, 316000],
        3 => seq![640000i32, 330000, 290000, 600000, 150000, 60000, 312700, 329000],
        4 => seq![630000i32, 340000, 310000, 595000, 155000, 70000, 312700, 329000],
        5 => seq![681000i32, 319000, 243000, 692000, 145000, 49000, 310000, 316000],
        6 => seq![708000i32, 292000, 170000, 797000, 131000, 46000, 312700, 329000],
        7 => seq![1000000i32, 0, 0, 1000000, 0, 0, 333333, 333333],
        8 => seq![680000i32, 320000, 265000, 690000, 150000, 60000, 314000, 351000],
        9 => seq![680000i32, 320000, 265000, 690000, 150000, 60000, 312700, 329000],
        _ => seq![640000i32, 330000, 210000, 710000, 150000, 60000, 312700, 329000],
    }
}

fn known_primaries(number: u32) -> (xy: [i32; 8])
    ensures
        xy@ == primaries_table(number),
{
    match number {
        1 => [640000, 330000, 300000, 600000, 150000, 60000, 312700, 329000],
        2 => [670000, 330000, 210000, 710000, 140000, 80000, 310000, 316000],
        3 => [640000, 330000, 290000, 600000, 150000, 60000, 312700, 329000],
        4 => [630000, 340000, 310000, 595000, 155000, 70000, 312700, 329000],
        5 => [681000, 319000, 243000, 692000, 145000, 49000, 310000, 316000],
        6 => [708000, 292000, 170000, 797000, 131000, 46000, 312700, 329000],
        7 => [1000000, 0, 0, 1000000, 0, 0, 333333, 333333],
        8 => [680000, 320000, 265000, 690000, 150000, 60000, 314000, 351000],
        9 => [680000, 320000, 265000, 690000, 150000, 60000, 312700, 329000],
        _ => [640000, 330000, 210000, 710000, 150000, 60000, 312700, 329000],
    }
}

/// Whether two lists of coordinates agree, up to one unit of rounding in each.
pub open spec fn coordinates_agree(a: Seq<i32>, b: Seq<i32>) -> bool {
    forall|i: int| 0 <= i < 8 ==> -1 <= #[trigger] a[i] - b[i] <= 1
}

/// The first named primaries, from `number` on, that the coordinates agree
/// with, or zero.
pub open spec fn named_from(xy: Seq<i32>, number: u32) -> u32
    decreases NAMED_PRIMARIES + 1 - number,
{
    if number > NAMED_PRIMARIES {
        0
    } else if coordinates_agree(xy, primaries_table(number)) {
        number
    } else {
        named_from(xy, (number + 1) as u32)
    }
}

fn agree(a: &[i32; 8], b: &[i32; 8]) -> (same: bool)
    ensures
        same == coordinates_agree(a@, b@),
{
    let mut index: usize = 0;
    while index < 8
        invariant
            index <= 8,
            forall|i: int| 0 <= i < index ==> -1 <= #[trigger] a@[i] - b@[i] <= 1,
        decreases 8 - index,
    {
        let difference: i64 = a[index] as i64 - b[index] as i64;
        if difference < -1 || difference > 1 {
            proof {
                assert(!(-1 <= a@[index as int] - b@[index as int] <= 1));
            }
            return false;
        }
        index = index + 1;
    }
    true
}

/// The number of the named primaries that the coordinates stand for, or zero.
pub fn named_primaries(xy: [i32; 8]) -> (number: u32)
    ensures
        number == named_from(xy@, 1),
{
    let mut number: u32 = 1;
    while number <= NAMED_PRIMARIES
        invariant
            1 <= number <= NAMED_PRIMARIES + 1,
            named_from(xy@, 1) == named_from(xy@, number),
        decreases NAMED_PRIMARIES + 1 - number,
    {
        let known = known_primaries(number);
        if agree(&xy, &known) {
            return number;
        }
        number = number + 1;
    }
    0
}

/// The coordinates of custom primaries, in millionths.
#[derive(Debug, Clone, Copy, PartialEq, Eq, Structural)]
pub struct Chromaticities {
    pub r_x: i32,
    pub r_y: i32,
    pub g_x: i32,
    pub g_y: i32,
    pub b_x: i32,
    pub b_y: i32,
    pub w_x: i32,
    pub w_y: i32,
}

impl Chromaticities {
    /// The coordinates as a list.
    pub open spec fn coordinates(self) -> Seq<i32> {
        seq![
            self.r_x,
            self.r_y,
            self.g_x,
            self.g_y,
            self.b_x,
            self.b_y,
            self.w_x,
            self.w_y,
        ]
    }

    /// Lists the coordinates.
    pub fn to_array(&self) -> (xy: [i32; 8])
        ensures
            xy@ == self.coordinates(),
    {
        [
            self.r_x,
            self.r_y,
            self.g_x,
            self.g_y,
            self.b_x,
            self.b_y,
            self.w_x,
            self.w_y,
        ]
    }
}

/// Luminances in cd/m2; the minimum is in ten-thousandths.
#[derive(Debug, Clone, Copy, PartialEq, Eq, Structural)]
pub struct Luminances {
    pub min_lum: u32,
    pub max_lum: u32,
    pub reference_lum: u32,
}

/// How the pixels of a surface are to be understood.
#[derive(Debug, Clone, Copy, PartialEq, Eq, Structural)]
pub struct ColorDescription {
    pub tf: u32,
    pub primaries: u32,
    pub power: Option<u32>,
    pub chromaticities: Option<Chromaticities>,
    pub luminances: Option<Luminances>,
    pub extended: bool,
}

impl View for ColorDescription {
    type V = ColorDescription;

    open spec fn view(&self) -> ColorDescription {
        *self
    }
}

/// A description of which nothing is known yet.
pub open spec fn blank() -> ColorDescription {
    ColorDescription {
        tf: 0,
        primaries: 0,
        power: None,
        chromaticities: None,
        luminances: None,
        extended: false,
    }
}

impl Default for ColorDescription {
    fn default() -> (description: Self)
        ensures
            description == blank(),
    {
        ColorDescription {
            tf: 0,
            primaries: 0,
            power: None,
            chromaticities: None,
            luminances: None,
            extended: false,
        }
    }
}

/// The name of a transfer function.
pub open spec fn transfer_function_name(tf: u32) -> &'static str {
    match tf {
        1 => "BT.1886",
        2 => "gamma 2.2",
        3 => "gamma 2.8",
        4 => "SMPTE ST 240",
        5 => "extended linear",
        6 => "log 100:1",
        7 => "log 316:1",
        8 => "xvYCC",
        9 => "sRGB (deprecated)",
        10 => "extended sRGB (deprecated)",
        11 => "ST 2084 PQ",
        12 => "SMPTE ST 428",
        13 => "HLG",
        14 => "compound power 2.4",
        _ => "unknown",
    }
}

/// The name of primaries.
pub open spec fn primaries_text(primaries: u32) -> &'static str {
    match primaries {
        1 => "sRGB / BT.709",
        2 => "PAL-M / BT.470 M",
        3 => "PAL / BT.601 625",
        4 => "NTSC / BT.601 525",
        5 => "generic film",
        6 => "BT.2020",
        7 => "CIE 1931 XYZ",
        8 => "DCI P3",
        9 => "Display P3",
        10 => "Adobe RGB",
        _ => "unknown",
    }
}

/// Whether a screenshot can be made of pixels with a description, and if not
/// why: `conversion` is the error, if any, of the conversion of its custom
/// primaries, and `levels_valid` whether its luminances make a range.
pub open spec fn validity(
    description: ColorDescription,
    conversion: Option<Seq<char>>,
    levels_valid: bool,
) -> Result<(), Seq<char>> {
    if description.power is Some && !(10000 <= description.power.unwrap() <= 100000) {
        Err(
            "invalid screenshot transfer power exponent "@ + text::decimal(
                description.power.unwrap() as nat,
            ) + "/10000 (expected 1..=10)"@,
        )
    } else if description.power is None && !(1 <= description.tf <= 14) {
        Err(
            "unknown or missing screenshot transfer function "@ + text::decimal(
                description.tf as nat,
            ),
        )
    } else if description.chromaticities is Some && conversion is Some {
        Err(conversion.unwrap())
    } else if description.chromaticities is None && !(1 <= description.primaries <= 10) {
        Err(
            "unknown or missing screenshot color primaries "@ + text::decimal(
                description.primaries as nat,
            ),
        )
    } else if !levels_valid {
        Err("invalid screenshot color luminance range"@)
    } else {
        Ok(())
    }
}

/// How colors were brought into the range of the screenshot.
pub fn tone_mapper(hdr: bool) -> (name: &'static str)
    ensures
        name == (if hdr {
            "luminance Reinhard, Y/(1+Y), relative to source reference white"
        } else {
            "none"
        }),
{
    if hdr {
        "luminance Reinhard, Y/(1+Y), relative to source reference white"
    } else {
        "none"
    }
}

/// What a caller is told of the colors of a screenshot.
pub fn color_notice(hdr: bool) -> (notice: &'static str)
    ensures
        notice == (if hdr {
            "This image is an SDR sRGB tone-mapped preview, NOT the original HDR window. The image-delivery path to the OpenAI model uses an SDR PNG; native HDR color interpretation is not documented by OpenAI. Original absolute brightness, wide-gamut colors, and HDR highlight appearance cannot be judged from this preview."
        } else {
            "Source pixels have been converted to SDR sRGB for this screenshot."
        }),
{
    if hdr {
        "This image is an SDR sRGB tone-mapped preview, NOT the original HDR window. The image-delivery path to the OpenAI model uses an SDR PNG; native HDR color interpretation is not documented by OpenAI. Original absolute brightness, wide-gamut colors, and HDR highlight appearance cannot be judged from this preview."
    } else {
        "Source pixels have been converted to SDR sRGB for this screenshot."
    }
}

impl ColorDescription {
    /// The name of the transfer function.
    pub fn transfer_name(&self) -> (name: &'static str)
        ensures
            name == (if self.power is Some {
                "custom power"
            } else {
                transfer_function_name(self.tf)
            }),
    {
        if self.power.is_some() {
            return "custom power";
        }
        match self.tf {
            1 => "BT.1886",
            2 => "gamma 2.2",
            3 => "gamma 2.8",
            4 => "SMPTE ST 240",
            5 => "extended linear",
            6 => "log 100:1",
            7 => "log 316:1",
            8 => "xvYCC",
            9 => "sRGB (deprecated)",
            10 => "extended sRGB (deprecated)",
            11 => "ST 2084 PQ",
            12 => "SMPTE ST 428",
            13 => "HLG",
            14 => "compound power 2.4",
            _ => "unknown",
        }
    }

    /// The name of the primaries.
    pub fn primaries_name(&self) -> (name: &'static str)
        ensures
            name == (if self.primaries == 0 && self.chromaticities is Some {
                "custom chromaticities"
            } else {
                primaries_text(self.primaries)
            }),
    {
        if self.primaries == 0 && self.chromaticities.is_some() {
            return "custom chromaticities";
        }
        match self.primaries {
            1 => "sRGB / BT.709",
            2 => "PAL-M / BT.470 M",
            3 => "PAL / BT.601 625",
            4 => "NTSC / BT.601 525",
            5 => "generic film",
            6 => "BT.2020",
            7 => "CIE 1931 XYZ",
            8 => "DCI P3",
            9 => "Display P3",
            10 => "Adobe RGB",
            _ => "unknown",
        }
    }

    /// Whether a screenshot can be made of pixels with this description.
    pub fn validate(&self, conversion: &Option<String>, levels_valid: bool) -> (valid: Result<
        (),
        String,
    >)
        ensures
            text::outcome(valid) == validity(*self, text::optional(*conversion), levels_valid),
    {
        match self.power {
            Some(power) => {
                if power < 10000 || power > 100000 {
                    let mut message = "invalid screenshot transfer power exponent ".to_owned();
                    append_decimal(&mut message, power as u64);
                    message.append("/10000 (expected 1..=10)");
                    return Err(message);
                }
            },
            None => {
                if self.tf < 1 || self.tf > 14 {
                    let mut message = "unknown or missing screenshot transfer function ".to_owned();
                    append_decimal(&mut message, self.tf as u64);
                    return Err(message);
                }
            },
        }
        if self.chromaticities.is_some() {
            if let Some(error) = conversion {
                return Err(error.clone());
            }
        } else if self.primaries < 1 || self.primaries > 10 {
            let mut message = "unknown or missing screenshot color primaries ".to_owned();
            append_decimal(&mut message, self.primaries as u64);
            return Err(message);
        }
        if !levels_valid {
            return Err("invalid screenshot color luminance range".to_owned());
        }
        Ok(())
    }
}

/// The colors of the surfaces of one client.
pub struct SurfaceColors {
    creators: Table<u32, ColorDescription>,
    descriptions: Table<u32, ColorDescription>,
    surfaces: Table<u32, u32>,
    pending: Table<u32, Option<ColorDescription>>,
    committed: Table<u32, ColorDescription>,
}

/// The value of a client's color state: descriptions that are being built, and
/// those that are ready; which surface a color-management object is for; what
/// the next commit of a surface will change; and what holds of it now.
#[verifier::ext_equal]
pub struct ColorsView {
    pub creators: Map<u32, ColorDescription>,
    pub descriptions: Map<u32, ColorDescription>,
    pub surfaces: Map<u32, u32>,
    pub pending: Map<u32, Option<ColorDescription>>,
    pub committed: Map<u32, ColorDescription>,
}

/// What stands under a key, or a blank description.
pub open spec fn or_blank(map: Map<u32, ColorDescription>, key: u32) -> ColorDescription {
    if map.contains_key(key) {
        map[key]
    } else {
        blank()
    }
}

impl ColorsView {
    /// No colors at all.
    pub open spec fn empty() -> Self {
        ColorsView {
            creators: Map::empty(),
            descriptions: Map::empty(),
            surfaces: Map::empty(),
            pending: Map::empty(),
            committed: Map::empty(),
        }
    }

    /// With a description that is being built replaced.
    pub open spec fn with_creator(self, object: u32, creator: ColorDescription) -> Self {
        ColorsView { creators: self.creators.insert(object, creator), ..self }
    }

    /// With what the next commit of a color-management object's surface will do.
    pub open spec fn with_pending(self, object: u32, change: Option<ColorDescription>) -> Self {
        if self.surfaces.contains_key(object) {
            ColorsView { pending: self.pending.insert(self.surfaces[object], change), ..self }
        } else {
            self
        }
    }

    /// After a request of `object`.
    pub open spec fn after(self, object: u32, request: GeneratedHookRequest) -> Self {
        let creator = or_blank(self.creators, object);
        match request {
            GeneratedHookRequest::WpColorManagerV1CreateWindowsScrgb { image_description } => {
                ColorsView {
                    descriptions: self.descriptions.insert(
                        image_description,
                        ColorDescription {
                            tf: 5,
                            primaries: 1,
                            luminances: Some(
                                Luminances { min_lum: 0, max_lum: 80, reference_lum: 203 },
                            ),
                            extended: true,
                            ..blank()
                        },
                    ),
                    ..self
                }
            },
            GeneratedHookRequest::WpColorManagerV1CreateParametricCreator { obj } => {
                self.with_creator(obj, blank())
            },
            GeneratedHookRequest::WpImageDescriptionCreatorParamsV1SetTfNamed { tf } => {
                self.with_creator(object, ColorDescription { tf, power: None, ..creator })
            },
            GeneratedHookRequest::WpImageDescriptionCreatorParamsV1SetPrimariesNamed {
                primaries,
            } => {
                self.with_creator(
                    object,
                    ColorDescription { primaries, chromaticities: None, ..creator },
                )
            },
            GeneratedHookRequest::WpImageDescriptionCreatorParamsV1SetTfPower { eexp } => {
                self.with_creator(object, ColorDescription { tf: 0, power: Some(eexp), ..creator })
            },
            GeneratedHookRequest::WpImageDescriptionCreatorParamsV1SetPrimaries {
                r_x,
                r_y,
                g_x,
                g_y,
                b_x,
                b_y,
                w_x,
                w_y,
            } => {
                let xy = Chromaticities { r_x, r_y, g_x, g_y, b_x, b_y, w_x, w_y };
                self.with_creator(
                    object,
                    ColorDescription {
                        primaries: named_from(xy.coordinates(), 1),
                        chromaticities: Some(xy),
                        ..creator
                    },
                )
            },
            GeneratedHookRequest::WpImageDescriptionCreatorParamsV1SetLuminances {
                min_lum,
                max_lum,
                reference_lum,
            } => {
                self.with_creator(
                    object,
                    ColorDescription {
                        luminances: Some(Luminances { min_lum, max_lum, reference_lum }),
                        ..creator
                    },
                )
            },
            GeneratedHookRequest::WpImageDescriptionCreatorParamsV1Create { image_description } => {
                ColorsView {
                    creators: self.creators.remove(object),
                    descriptions: self.descriptions.insert(image_description, creator),
                    ..self
                }
            },
            GeneratedHookRequest::WpColorManagerV1GetSurface { id, surface: Some(surface) } => {
                ColorsView { surfaces: self.surfaces.insert(id, surface), ..self }
            },
            GeneratedHookRequest::WpColorManagementSurfaceV1SetImageDescription {
                image_description,
                ..
            } => {
                self.with_pending(
                    object,
                    Some(
                        match image_description {
                            Some(id) => or_blank(self.descriptions, id),
                            None => blank(),
                        },
                    ),
                )
            },
            GeneratedHookRequest::WpColorManagementSurfaceV1UnsetImageDescription => {
                self.with_pending(object, None)
            },
            GeneratedHookRequest::WpColorManagementSurfaceV1Destroy => {
                let unset = self.with_pending(object, None);
                ColorsView { surfaces: unset.surfaces.remove(object), ..unset }
            },
            GeneratedHookRequest::WpImageDescriptionV1Destroy => {
                ColorsView { descriptions: self.descriptions.remove(object), ..self }
            },
            GeneratedHookRequest::WlSurfaceCommit => {
                if !self.pending.contains_key(object) {
                    self
                } else {
                    ColorsView {
                        pending: self.pending.remove(object),
                        committed: match self.pending[object] {
                            Some(color) => self.committed.insert(object, color),
                            None => self.committed.remove(object),
                        },
                        ..self
                    }
                }
            },
            GeneratedHookRequest::WlSurfaceDestroy => {
                ColorsView {
                    pending: self.pending.remove(object),
                    committed: self.committed.remove(object),
                    surfaces: self.surfaces.remove_keys(
                        Set::new(|id: u32| self.surfaces[id] == object),
                    ),
                    ..self
                }
            },
            _ => self,
        }
    }

    /// The description that holds of a surface now.
    pub open spec fn current(self, surface: u32) -> Option<ColorDescription> {
        if self.committed.contains_key(surface) {
            Some(self.committed[surface])
        } else {
            None
        }
    }
}

impl View for SurfaceColors {
    type V = ColorsView;

    closed spec fn view(&self) -> ColorsView {
        ColorsView {
            creators: self.creators@,
            descriptions: self.descriptions@,
            surfaces: self.surfaces@,
            pending: self.pending@,
            committed: self.committed@,
        }
    }
}

impl Default for SurfaceColors {
    fn default() -> (colors: Self)
        ensures
            colors@ == ColorsView::empty(),
    {
        SurfaceColors {
            creators: Table::new(),
            descriptions: Table::new(),
            surfaces: Table::new(),
            pending: Table::new(),
            committed: Table::new(),
        }
    }
}

impl SurfaceColors {
    /// The description that holds of a surface now.
    pub fn get(&self, surface: u32) -> (color: Option<&ColorDescription>)
        ensures
            match color {
                Some(description) => self@.current(surface) == Some(*description),
                None => self@.current(surface) is None,
            },
    {
        self.committed.get(surface)
    }

    fn creator(&self, object: u32) -> (creator: ColorDescription)
        ensures
            creator == or_blank(self@.creators, object),
    {
        match self.creators.get(object) {
            Some(creator) => *creator,
            None => ColorDescription::default(),
        }
    }

    fn set_pending(&mut self, object: u32, change: Option<ColorDescription>)
        ensures
            final(self)@ == old(self)@.with_pending(object, change),
    {
        let surface: u32 = match self.surfaces.get(object) {
            Some(surface) => *surface,
            None => return,
        };
        self.pending.insert(surface, change);
    }

    fn forget_surface(&mut self, object: u32)
        ensures
            final(self)@ == (ColorsView {
                surfaces: old(self)@.surfaces.remove_keys(
                    Set::new(|id: u32| old(self)@.surfaces[id] == object),
                ),
                ..old(self)@
            }),
    {
        let keys = self.surfaces.keys();
        let ghost before = self.surfaces@;
        let mut index: usize = 0;
        while index < keys.len()
            invariant
                index <= keys@.len(),
                keys@.to_set() == before.dom(),
                old(self)@.surfaces == before,
                self@ == (ColorsView { surfaces: self@.surfaces, ..old(self)@ }),
                forall|id: u32|
                    #![trigger self.surfaces@.contains_key(id)]
                    self.surfaces@.contains_key(id) == (before.contains_key(id) && !(before[id]
                        == object && keys@.take(index as int).contains(id))),
                forall|id: u32| #[trigger]
                    self.surfaces@.contains_key(id) ==> self.surfaces@[id] == before[id],
            decreases keys@.len() - index,
        {
            let key: u32 = keys[index];
            let gone = match self.surfaces.get(key) {
                Some(surface) => *surface == object,
                None => false,
            };
            if gone {
                self.surfaces.remove(key);
            }
            proof {
                let seen = keys@.take(index + 1);
                assert(seen =~= keys@.take(index as int).push(key));
                assert forall|id: u32| seen.contains(id) == (keys@.take(index as int).contains(id)
                    || id == key) by {
                    if keys@.take(index as int).contains(id) {
                        let at = choose|at: int|
                            0 <= at < index && keys@.take(index as int)[at] == id;
                        assert(seen[at] == id);
                    }
                    assert(seen[index as int] == key);
                }
            }
            index = index + 1;
        }
        proof {
            assert(keys@.take(index as int) =~= keys@);
            let expected = before.remove_keys(Set::new(|id: u32| before[id] == object));
            assert forall|id: u32| self.surfaces@.contains_key(id) == expected.contains_key(id) by {
                if before.contains_key(id) {
                    assert(keys@.to_set().contains(id));
                }
            }
            assert(self.surfaces@ =~= expected);
        }
    }

    /// Takes in a request of `object`.
    pub fn request(&mut self, object: u32, request: &GeneratedHookRequest)
        ensures
            final(self)@ == old(self)@.after(object, *request),
    {
        match request {
            GeneratedHookRequest::WpColorManagerV1CreateWindowsScrgb { image_description } => {
                self.descriptions.insert(
                    *image_description,
                    ColorDescription {
                        tf: 5,
                        primaries: 1,
                        power: None,
                        chromaticities: None,
                        luminances: Some(
                            Luminances { min_lum: 0, max_lum: 80, reference_lum: 203 },
                        ),
                        extended: true,
                    },
                );
            },
            GeneratedHookRequest::WpColorManagerV1CreateParametricCreator { obj } => {
                self.creators.insert(*obj, ColorDescription::default());
            },
            GeneratedHookRequest::WpImageDescriptionCreatorParamsV1SetTfNamed { tf } => {
                let mut creator = self.creator(object);
                creator.tf = *tf;
                creator.power = None;
                self.creators.insert(object, creator);
            },
            GeneratedHookRequest::WpImageDescriptionCreatorParamsV1SetPrimariesNamed {
                primaries,
            } => {
                let mut creator = self.creator(object);
                creator.primaries = *primaries;
                creator.chromaticities = None;
                self.creators.insert(object, creator);
            },
            GeneratedHookRequest::WpImageDescriptionCreatorParamsV1SetTfPower { eexp } => {
                let mut creator = self.creator(object);
                creator.tf = 0;
                creator.power = Some(*eexp);
                self.creators.insert(object, creator);
            },
            GeneratedHookRequest::WpImageDescriptionCreatorParamsV1SetPrimaries {
                r_x,
                r_y,
                g_x,
                g_y,
                b_x,
                b_y,
                w_x,
                w_y,
            } => {
                let xy = Chromaticities {
                    r_x: *r_x,
                    r_y: *r_y,
                    g_x: *g_x,
                    g_y: *g_y,
                    b_x: *b_x,
                    b_y: *b_y,
                    w_x: *w_x,
                    w_y: *w_y,
                };
                let mut creator = self.creator(object);
                creator.primaries = named_primaries(xy.to_array());
                creator.chromaticities = Some(xy);
                self.creators.insert(object, creator);
            },
            GeneratedHookRequest::WpImageDescriptionCreatorParamsV1SetLuminances {
                min_lum,
                max_lum,
                reference_lum,
            } => {
                let mut creator = self.creator(object);
                creator.luminances = Some(
                    Luminances {
                        min_lum: *min_lum,
                        max_lum: *max_lum,
                        reference_lum: *reference_lum,
                    },
                );
                self.creators.insert(object, creator);
            },
            GeneratedHookRequest::WpImageDescriptionCreatorParamsV1Create { image_description } => {
                let creator = self.creator(object);
                self.creators.remove(object);
                self.descriptions.insert(*image_description, creator);
            },
            GeneratedHookRequest::WpColorManagerV1GetSurface { id, surface } => {
                if let Some(surface) = surface {
                    self.surfaces.insert(*id, *surface);
                }
            },
            GeneratedHookRequest::WpColorManagementSurfaceV1SetImageDescription {
                image_description,
                render_intent: _,
            } => {
                // A description that is not known must fail the capture, never
                // pass for sRGB.
                let color = match image_description {
                    Some(id) => match self.descriptions.get(*id) {
                        Some(color) => *color,
                        None => ColorDescription::default(),
                    },
                    None => ColorDescription::default(),
                };
                self.set_pending(object, Some(color));
            },
            GeneratedHookRequest::WpColorManagementSurfaceV1UnsetImageDescription => {
                self.set_pending(object, None);
            },
            GeneratedHookRequest::WpColorManagementSurfaceV1Destroy => {
                self.set_pending(object, None);
                self.surfaces.remove(object);
            },
            GeneratedHookRequest::WpImageDescriptionV1Destroy => {
                self.descriptions.remove(object);
            },
            GeneratedHookRequest::WlSurfaceCommit => {
                if let Some(change) = self.pending.remove(object) {
                    match change {
                        Some(color) => {
                            self.committed.insert(object, color);
                        },
                        None => {
                            self.committed.remove(object);
                        },
                    }
                } else {
                    assert(self.pending@ =~= old(self).pending@);
                }
            },
            GeneratedHookRequest::WlSurfaceDestroy => {
                self.pending.remove(object);
                self.committed.remove(object);
                self.forget_surface(object);
            },
            _ => {},
        }
    }
}

/// Colors are double-buffered: no request but a commit of the surface, or its
/// destruction, changes the description that holds of it.
pub proof fn colors_change_on_commit_only(
    colors: ColorsView,
    object: u32,
    request: GeneratedHookRequest,
    surface: u32,
)
    requires
        request !is WlSurfaceCommit || object != surface,
        request !is WlSurfaceDestroy || object != surface,
    ensures
        colors.after(object, request).current(surface) == colors.current(surface),
{
}

/// A commit puts in force what was set since the last one, and leaves alone a
/// surface for which nothing was set.
pub proof fn commit_applies_what_is_pending(colors: ColorsView, surface: u32)
    ensures
        colors.after(surface, GeneratedHookRequest::WlSurfaceCommit).current(surface) == (
        if colors.pending.contains_key(surface) {
            colors.pending[surface]
        } else {
            colors.current(surface)
        }),
        !colors.after(surface, GeneratedHookRequest::WlSurfaceCommit).pending.contains_key(surface),
{
}

/// A description is copied when it is set: destroying it afterwards changes
/// neither what holds of any surface nor what the next commit will put in force.
pub proof fn set_description_outlives_its_object(
    colors: ColorsView,
    management: u32,
    surface: u32,
    description: u32,
    render_intent: u32,
)
    requires
        colors.surfaces.contains_key(management),
        colors.surfaces[management] == surface,
        colors.descriptions.contains_key(description),
    ensures
        colors.after(
            management,
            GeneratedHookRequest::WpColorManagementSurfaceV1SetImageDescription {
                image_description: Some(description),
                render_intent,
            },
        ).after(description, GeneratedHookRequest::WpImageDescriptionV1Destroy).after(
            surface,
            GeneratedHookRequest::WlSurfaceCommit,
        ).current(surface) == Some(colors.descriptions[description]),
{
}

/// All named transfer functions and all named primaries can be captured, as can every
/// power between one and ten.
pub proof fn named_colors_can_be_captured(description: ColorDescription)
    requires
        description.chromaticities is None,
        1 <= description.primaries <= NAMED_PRIMARIES,
        match description.power {
            Some(power) => 10000 <= power <= 100000,
            None => 1 <= description.tf <= 14,
        },
    ensures
        validity(description, None, true) == Ok::<(), Seq<char>>(()),
{
}

/// A surface whose description is not known cannot be captured.
pub proof fn unknown_description_is_never_valid(
    colors: ColorsView,
    management: u32,
    surface: u32,
    description: u32,
    render_intent: u32,
    conversion: Option<Seq<char>>,
    levels_valid: bool,
)
    requires
        colors.surfaces.contains_key(management),
        colors.surfaces[management] == surface,
        !colors.descriptions.contains_key(description),
    ensures
        ({
            let committed = colors.after(
                management,
                GeneratedHookRequest::WpColorManagementSurfaceV1SetImageDescription {
                    image_description: Some(description),
                    render_intent,
                },
            ).after(surface, GeneratedHookRequest::WlSurfaceCommit);
            committed.current(surface) is Some && validity(
                committed.current(surface).unwrap(),
                conversion,
                levels_valid,
            ) is Err
        }),
{
}

/// What a client sets for a description is what the description says, whatever else it
/// sets: each request changes what it names, a transfer function by name and one by
/// its power taking each other's place, as do primaries by name and by coordinates.
pub proof fn settings_stand_side_by_side(colors: ColorsView, object: u32, value: u32, more: u32, most: u32)
    ensures
        ({
            let creator = or_blank(colors.creators, object);
            let after = colors.after(
                object,
                GeneratedHookRequest::WpImageDescriptionCreatorParamsV1SetTfNamed { tf: value },
            ).creators;
            &&& after.contains_key(object)
            &&& after[object].tf == value
            &&& after[object].power is None
            &&& after[object].primaries == creator.primaries
            &&& after[object].chromaticities == creator.chromaticities
            &&& after[object].luminances == creator.luminances
            &&& after[object].extended == creator.extended
        }),
        ({
            let creator = or_blank(colors.creators, object);
            let after = colors.after(
                object,
                GeneratedHookRequest::WpImageDescriptionCreatorParamsV1SetTfPower { eexp: value },
            ).creators;
            &&& after.contains_key(object)
            &&& after[object].tf == 0
            &&& after[object].power == Some(value)
            &&& after[object].primaries == creator.primaries
            &&& after[object].chromaticities == creator.chromaticities
            &&& after[object].luminances == creator.luminances
            &&& after[object].extended == creator.extended
        }),
        ({
            let creator = or_blank(colors.creators, object);
            let after = colors.after(
                object,
                GeneratedHookRequest::WpImageDescriptionCreatorParamsV1SetPrimariesNamed {
                    primaries: value,
                },
            ).creators;
            &&& after.contains_key(object)
            &&& after[object].primaries == value
            &&& after[object].chromaticities is None
            &&& after[object].tf == creator.tf
            &&& after[object].power == creator.power
            &&& after[object].luminances == creator.luminances
            &&& after[object].extended == creator.extended
        }),
        ({
            let creator = or_blank(colors.creators, object);
            let after = colors.after(
                object,
                GeneratedHookRequest::WpImageDescriptionCreatorParamsV1SetLuminances {
                    min_lum: value,
                    max_lum: more,
                    reference_lum: most,
                },
            ).creators;
            &&& after.contains_key(object)
            &&& after[object].luminances matches Some(levels) && levels.min_lum == value
                && levels.max_lum == more && levels.reference_lum == most
            &&& after[object].tf == creator.tf
            &&& after[object].power == creator.power
            &&& after[object].primaries == creator.primaries
            &&& after[object].chromaticities == creator.chromaticities
            &&& after[object].extended == creator.extended
        }),
{
}

/// Primaries that a client sets by their coordinates are kept as they are, and where
/// they are those of a named set they go by its name too.
pub proof fn coordinates_are_kept(colors: ColorsView, object: u32, xy: Chromaticities)
    ensures
        ({
            let creator = or_blank(colors.creators, object);
            let after = colors.after(
                object,
                GeneratedHookRequest::WpImageDescriptionCreatorParamsV1SetPrimaries {
                    r_x: xy.r_x,
                    r_y: xy.r_y,
                    g_x: xy.g_x,
                    g_y: xy.g_y,
                    b_x: xy.b_x,
                    b_y: xy.b_y,
                    w_x: xy.w_x,
                    w_y: xy.w_y,
                },
            ).creators;
            &&& after.contains_key(object)
            &&& after[object].chromaticities == Some(xy)
            &&& after[object].primaries <= NAMED_PRIMARIES
            &&& after[object].primaries > 0 ==> {
                let named = primaries_table(after[object].primaries);
                &&& -1 <= xy.r_x - named[0] <= 1
                &&& -1 <= xy.r_y - named[1] <= 1
                &&& -1 <= xy.g_x - named[2] <= 1
                &&& -1 <= xy.g_y - named[3] <= 1
                &&& -1 <= xy.b_x - named[4] <= 1
                &&& -1 <= xy.b_y - named[5] <= 1
                &&& -1 <= xy.w_x - named[6] <= 1
                &&& -1 <= xy.w_y - named[7] <= 1
            }
            &&& after[object].tf == creator.tf
            &&& after[object].power == creator.power
            &&& after[object].luminances == creator.luminances
            &&& after[object].extended == creator.extended
        }),
{
    let listed = xy.coordinates();
    let number = named_from(listed, 1);
    first_name_is_found(listed, 1);
    if number > 0 {
        let named = primaries_table(number);
        assert(coordinates_agree(listed, named));
        assert(-1 <= listed[0] - named[0] <= 1 && -1 <= listed[1] - named[1] <= 1);
        assert(-1 <= listed[2] - named[2] <= 1 && -1 <= listed[3] - named[3] <= 1);
        assert(-1 <= listed[4] - named[4] <= 1 && -1 <= listed[5] - named[5] <= 1);
        assert(-1 <= listed[6] - named[6] <= 1 && -1 <= listed[7] - named[7] <= 1);
    }
}

proof fn first_name_is_found(xy: Seq<i32>, start: u32)
    requires
        start > 0,
    ensures
        ({
            let number = named_from(xy, start);
            &&& number == 0 || start <= number <= NAMED_PRIMARIES && coordinates_agree(
                xy,
                primaries_table(number),
            )
            &&& forall|other: u32|
                start <= other <= NAMED_PRIMARIES && (number == 0 || other < number)
                    ==> !coordinates_agree(xy, #[trigger] primaries_table(other))
        }),
    decreases NAMED_PRIMARIES + 1 - start,
{
    if start <= NAMED_PRIMARIES && !coordinates_agree(xy, primaries_table(start)) {
        first_name_is_found(xy, (start + 1) as u32);
    }
}

/// Each named set of primaries goes by its own name, and a name is found wherever one
/// fits.
pub proof fn primaries_go_by_their_names(number: u32, xy: Seq<i32>)
    requires
        1 <= number <= NAMED_PRIMARIES,
    ensures
        named_from(primaries_table(number), 1) == number,
        coordinates_agree(xy, primaries_table(number)) ==> 0 < named_from(xy, 1) <= number,
{
    let own = primaries_table(number);
    first_name_is_found(own, 1);
    first_name_is_found(xy, 1);
    assert(coordinates_agree(own, own));
    let found = named_from(own, 1);
    let other = primaries_table(found);
    if found != number {
        assert(coordinates_agree(own, other));
        assert(-1 <= own[0] - other[0] <= 1);
        assert(-1 <= own[1] - other[1] <= 1);
        assert(-1 <= own[2] - other[2] <= 1);
        assert(-1 <= own[3] - other[3] <= 1);
        assert(-1 <= own[6] - other[6] <= 1);
    }
}

/// A description that was built, set for a surface and committed holds of the surface
/// as it was built.
pub proof fn built_description_holds(
    colors: ColorsView,
    manager: u32,
    creator: u32,
    description: u32,
    management: u32,
    surface: u32,
    render_intent: u32,
)
    requires
        colors.creators.contains_key(creator),
    ensures
        ({
            let built = colors.after(
                creator,
                GeneratedHookRequest::WpImageDescriptionCreatorParamsV1Create {
                    image_description: description,
                },
            );
            let set = built.after(
                manager,
                GeneratedHookRequest::WpColorManagerV1GetSurface {
                    id: management,
                    surface: Some(surface),
                },
            ).after(
                management,
                GeneratedHookRequest::WpColorManagementSurfaceV1SetImageDescription {
                    image_description: Some(description),
                    render_intent,
                },
            );
            let committed = set.after(surface, GeneratedHookRequest::WlSurfaceCommit);
            let unset = committed.after(
                management,
                GeneratedHookRequest::WpColorManagementSurfaceV1UnsetImageDescription,
            ).after(surface, GeneratedHookRequest::WlSurfaceCommit);
            &&& !built.creators.contains_key(creator)
            &&& set.current(surface) == colors.current(surface)
            &&& committed.current(surface) == Some(colors.creators[creator])
            &&& unset.current(surface) is None
        }),
{
}

/// The description for scRGB is linear and extended, with the primaries of sRGB.
pub proof fn scrgb_is_extended_linear(colors: ColorsView, object: u32, description: u32)
    ensures
        ({
            let made = colors.after(
                object,
                GeneratedHookRequest::WpColorManagerV1CreateWindowsScrgb {
                    image_description: description,
                },
            ).descriptions;
            &&& made.contains_key(description)
            &&& transfer_function_name(made[description].tf)@ == "extended linear"@
            &&& primaries_text(made[description].primaries)@ == "sRGB / BT.709"@
            &&& made[description].extended
            &&& made[description].power is None
            &&& made[description].chromaticities is None
            &&& made[description].luminances matches Some(levels) && levels.max_lum == 80
                && levels.reference_lum == 203 && levels.min_lum == 0
        }),
{
}

/// A description can be captured exactly where its transfer function is a named one or
/// a power from one to ten, its primaries are named or can be converted, and its
/// luminances make sense.
pub proof fn valid_means_understood(
    description: ColorDescription,
    conversion: Option<Seq<char>>,
    levels_valid: bool,
)
    ensures
        validity(description, conversion, levels_valid) is Ok <==> {
            &&& match description.power {
                Some(power) => 10000 <= power <= 100000,
                None => 1 <= description.tf <= 14,
            }
            &&& match description.chromaticities {
                Some(_) => conversion is None,
                None => 1 <= description.primaries <= 10,
            }
            &&& levels_valid
        },
{
}

/// The named primaries are those of their standards: of the sets with daylight for
/// white, with the white of film, of the cinema and of equal energy, and those that
/// share a primary share it exactly.
pub proof fn primaries_are_those_of_their_standards(number: u32)
    requires
        1 <= number <= NAMED_PRIMARIES,
    ensures
        ({
            let xy = primaries_table(number);
            let white = (xy[6], xy[7]);
            let red = (xy[0], xy[1]);
            let green = (xy[2], xy[3]);
            let blue = (xy[4], xy[5]);
            &&& xy.len() == 8
            &&& white == (312700i32, 329000i32) <==> number == 1 || number == 3 || number == 4
                || number == 6 || number == 9 || number == 10
            &&& white == (310000i32, 316000i32) <==> number == 2 || number == 5
            &&& white == (314000i32, 351000i32) <==> number == 8
            &&& red == (640000i32, 330000i32) <==> number == 1 || number == 3 || number == 10
            &&& red == (680000i32, 320000i32) <==> number == 8 || number == 9
            &&& red == (708000i32, 292000i32) <==> number == 6
            &&& red == (630000i32, 340000i32) <==> number == 4
            &&& green == (300000i32, 600000i32) <==> number == 1
            &&& green == (290000i32, 600000i32) <==> number == 3
            &&& green == (210000i32, 710000i32) <==> number == 2 || number == 10
            &&& green == (265000i32, 690000i32) <==> number == 8 || number == 9
            &&& green == (170000i32, 797000i32) <==> number == 6
            &&& green == (310000i32, 595000i32) <==> number == 4
            &&& blue == (150000i32, 60000i32) <==> number == 1 || number == 3 || number == 8
                || number == 9 || number == 10
            &&& blue == (131000i32, 46000i32) <==> number == 6
            &&& blue == (155000i32, 70000i32) <==> number == 4
            &&& number != 7 ==> xy[0] + xy[1] <= 1000000 && xy[2] + xy[3] <= 1000000 && xy[4]
                + xy[5] <= 1000000
        }),
{
}

/// A surface that its client no longer manages the colors of has no description after
/// its next commit, and one that is destroyed has none at once; other surfaces keep
/// theirs.
pub proof fn descriptions_go_with_their_objects(
    colors: ColorsView,
    management: u32,
    surface: u32,
    other: u32,
)
    requires
        colors.surfaces.contains_key(management),
        colors.surfaces[management] == surface,
        other != surface,
    ensures
        ({
            let unmanaged = colors.after(
                management,
                GeneratedHookRequest::WpColorManagementSurfaceV1Destroy,
            );
            let committed = unmanaged.after(surface, GeneratedHookRequest::WlSurfaceCommit);
            &&& !unmanaged.surfaces.contains_key(management)
            &&& unmanaged.current(surface) == colors.current(surface)
            &&& committed.current(surface) is None
            &&& committed.current(other) == colors.current(other)
        }),
        ({
            let gone = colors.after(surface, GeneratedHookRequest::WlSurfaceDestroy);
            &&& gone.current(surface) is None
            &&& !gone.pending.contains_key(surface)
            &&& !gone.surfaces.contains_key(management)
            &&& gone.current(other) == colors.current(other)
        }),
{
}

} // verus!
