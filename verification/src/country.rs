//! The countries in which a meet can take place.

use vstd::prelude::*;
use crate::ParseFailure;
use crate::text::{outline, str_eq};

verus! {

/// The country of a meet. The enumeration is closed.
#[derive(Copy, Clone, Debug, PartialEq, Eq, Structural)]
pub enum Country {
    Abkhazia,
    Afghanistan,
    Albania,
    Algeria,
    AmericanSamoa,
    Angola,
    Argentina,
    Armenia,
    Aruba,
    Australia,
    Austria,
    Azerbaijan,
    Bahamas,
    Bahrain,
    Bangladesh,
    Belarus,
    Belgium,
    Belize,
    Benin,
    Bolivia,
    BosniaAndHerzegovina,
    Botswana,
    Brazil,
    BritishVirginIslands,
    Brunei,
    Bulgaria,
    BurkinaFaso,
    CaboVerde,
    Cambodia,
    Cameroon,
    Canada,
    CaymanIslands,
    CentralAfricanRepublic,
    Chile,
    China,
    Colombia,
    Comoros,
    Congo,
    CookIslands,
    CostaRica,
    Croatia,
    Cuba,
    Cyprus,
    Czechia,
    Czechoslovakia,
    Denmark,
    Djibouti,
    DominicanRepublic,
    EastGermany,
    EastTimor,
    Ecuador,
    Egypt,
    ElSalvador,
    England,
    Estonia,
    Eswatini,
    Ethiopia,
    Fiji,
    Finland,
    France,
    Gabon,
    Georgia,
    Germany,
    Ghana,
    Gibraltar,
    Greece,
    Grenada,
    Guatemala,
    Guinea,
    GuineaBissau,
    Guyana,
    Haiti,
    Honduras,
    HongKong,
    Hungary,
    Iceland,
    India,
    Indonesia,
    Ireland,
    Israel,
    Italy,
    Iran,
    Iraq,
    IsleOfMan,
    IvoryCoast,
    Jamaica,
    Japan,
    Jordan,
    Kazakhstan,
    Kenya,
    Kiribati,
    Kuwait,
    Kyrgyzstan,
    Laos,
    Latvia,
    Lebanon,
    Lesotho,
    Liberia,
    Libya,
    Lithuania,
    Luxembourg,
    Malaysia,
    Mali,
    Malta,
    MarshallIslands,
    Mauritania,
    Mauritius,
    Mexico,
    Moldova,
    Monaco,
    Mongolia,
    Montenegro,
    Morocco,
    Myanmar,
    Namibia,
    Nauru,
    Nepal,
    Netherlands,
    NewCaledonia,
    NewZealand,
    Nicaragua,
    Niger,
    Nigeria,
    Niue,
    NorthernIreland,
    NorthMacedonia,
    Norway,
    Oman,
    Pakistan,
    Palestine,
    Panama,
    PapuaNewGuinea,
    Paraguay,
    Peru,
    Philippines,
    Poland,
    Portugal,
    PuertoRico,
    Qatar,
    Rhodesia,
    Romania,
    Russia,
    Rwanda,
    Samoa,
    SaudiArabia,
    Scotland,
    Senegal,
    Serbia,
    SerbiaAndMontenegro,
    SierraLeone,
    Singapore,
    Slovakia,
    Slovenia,
    SolomonIslands,
    SouthAfrica,
    SouthKorea,
    Spain,
    SriLanka,
    Sudan,
    Suriname,
    Sweden,
    Switzerland,
    Syria,
    Tahiti,
    Taiwan,
    Tajikistan,
    Tanzania,
    Thailand,
    Togo,
    Tonga,
    Transnistria,
    TrinidadAndTobago,
    Tunisia,
    Turkey,
    Turkmenistan,
    Tuvalu,
    UAE,
    Uganda,
    UK,
    Ukraine,
    Uruguay,
    USA,
    USSR,
    USVirginIslands,
    Uzbekistan,
    Vanuatu,
    Venezuela,
    Vietnam,
    Wales,
    WallisAndFutuna,
    WestGermany,
    Yemen,
    Yugoslavia,
    Zambia,
    Zimbabwe,
}

impl Country {
    /// The name under which this country is written in the MeetCountry column.
    pub open spec fn name(self) -> Seq<char> {
        match self {
            Country::Abkhazia => "Abkhazia"@,
            Country::Afghanistan => "Afghanistan"@,
            Country::Albania => "Albania"@,
            Country::Algeria => "Algeria"@,
            Country::AmericanSamoa => "American Samoa"@,
            Country::Angola => "Angola"@,
            Country::Argentina => "Argentina"@,
            Country::Armenia => "Armenia"@,
            Country::Aruba => "Aruba"@,
            Country::Australia => "Australia"@,
            Country::Austria => "Austria"@,
            Country::Azerbaijan => "Azerbaijan"@,
            Country::Bahamas => "Bahamas"@,
            Country::Bahrain => "Bahrain"@,
            Country::Bangladesh => "Bangladesh"@,
            Country::Belarus => "Belarus"@,
            Country::Belgium => "Belgium"@,
            Country::Belize => "Belize"@,
            Country::Benin => "Benin"@,
            Country::Bolivia => "Bolivia"@,
            Country::BosniaAndHerzegovina => "Bosnia and Herzegovina"@,
            Country::Botswana => "Botswana"@,
            Country::Brazil => "Brazil"@,
            Country::BritishVirginIslands => "British Virgin Islands"@,
            Country::Brunei => "Brunei"@,
            Country::Bulgaria => "Bulgaria"@,
            Country::BurkinaFaso => "Burkina Faso"@,
            Country::CaboVerde => "Cabo Verde"@,
            Country::Cambodia => "Cambodia"@,
            Country::Cameroon => "Cameroon"@,
            Country::Canada => "Canada"@,
            Country::CaymanIslands => "Cayman Islands"@,
            Country::CentralAfricanRepublic => "Central African Republic"@,
            Country::Chile => "Chile"@,
            Country::China => "China"@,
            Country::Colombia => "Colombia"@,
            Country::Comoros => "Comoros"@,
            Country::Congo => "Congo"@,
            Country::CookIslands => "Cook Islands"@,
            Country::CostaRica => "Costa Rica"@,
            Country::Croatia => "Croatia"@,
            Country::Cuba => "Cuba"@,
            Country::Cyprus => "Cyprus"@,
            Country::Czechia => "Czechia"@,
            Country::Czechoslovakia => "Czechoslovakia"@,
            Country::Denmark => "Denmark"@,
            Country::Djibouti => "Djibouti"@,
            Country::DominicanRepublic => "Dominican Republic"@,
            Country::EastGermany => "East Germany"@,
            Country::EastTimor => "East Timor"@,
            Country::Ecuador => "Ecuador"@,
            Country::Egypt => "Egypt"@,
            Country::ElSalvador => "El Salvador"@,
            Country::England => "England"@,
            Country::Estonia => "Estonia"@,
            Country::Eswatini => "Eswatini"@,
            Country::Ethiopia => "Ethiopia"@,
            Country::Fiji => "Fiji"@,
            Country::Finland => "Finland"@,
            Country::France => "France"@,
            Country::Gabon => "Gabon"@,
            Country::Georgia => "Georgia"@,
            Country::Germany => "Germany"@,
            Country::Ghana => "Ghana"@,
            Country::Gibraltar => "Gibraltar"@,
            Country::Greece => "Greece"@,
            Country::Grenada => "Grenada"@,
            Country::Guatemala => "Guatemala"@,
            Country::Guinea => "Guinea"@,
            Country::GuineaBissau => "Guinea-Bissau"@,
            Country::Guyana => "Guyana"@,
            Country::Haiti => "Haiti"@,
            Country::Honduras => "Honduras"@,
            Country::HongKong => "Hong Kong"@,
            Country::Hungary => "Hungary"@,
            Country::Iceland => "Iceland"@,
            Country::India => "India"@,
            Country::Indonesia => "Indonesia"@,
            Country::Ireland => "Ireland"@,
            Country::Israel => "Israel"@,
            Country::Italy => "Italy"@,
            Country::Iran => "Iran"@,
            Country::Iraq => "Iraq"@,
            Country::IsleOfMan => "Isle of Man"@,
            Country::IvoryCoast => "Ivory Coast"@,
            Country::Jamaica => "Jamaica"@,
            Country::Japan => "Japan"@,
            Country::Jordan => "Jordan"@,
            Country::Kazakhstan => "Kazakhstan"@,
            Country::Kenya => "Kenya"@,
            Country::Kiribati => "Kiribati"@,
            Country::Kuwait => "Kuwait"@,
            Country::Kyrgyzstan => "Kyrgyzstan"@,
            Country::Laos => "Laos"@,
            Country::Latvia => "Latvia"@,
            Country::Lebanon => "Lebanon"@,
            Country::Lesotho => "Lesotho"@,
            Country::Liberia => "Liberia"@,
            Country::Libya => "Libya"@,
            Country::Lithuania => "Lithuania"@,
            Country::Luxembourg => "Luxembourg"@,
            Country::Malaysia => "Malaysia"@,
            Country::Mali => "Mali"@,
            Country::Malta => "Malta"@,
            Country::MarshallIslands => "Marshall Islands"@,
            Country::Mauritania => "Mauritania"@,
            Country::Mauritius => "Mauritius"@,
            Country::Mexico => "Mexico"@,
            Country::Moldova => "Moldova"@,
            Country::Monaco => "Monaco"@,
            Country::Mongolia => "Mongolia"@,
            Country::Montenegro => "Montenegro"@,
            Country::Morocco => "Morocco"@,
            Country::Myanmar => "Myanmar"@,
            Country::Namibia => "Namibia"@,
            Country::Nauru => "Nauru"@,
            Country::Nepal => "Nepal"@,
            Country::Netherlands => "Netherlands"@,
            Country::NewCaledonia => "New Caledonia"@,
            Country::NewZealand => "New Zealand"@,
            Country::Nicaragua => "Nicaragua"@,
            Country::Niger => "Niger"@,
            Country::Nigeria => "Nigeria"@,
            Country::Niue => "Niue"@,
            Country::NorthernIreland => "N.Ireland"@,
            Country::NorthMacedonia => "North Macedonia"@,
            Country::Norway => "Norway"@,
            Country::Oman => "Oman"@,
            Country::Pakistan => "Pakistan"@,
            Country::Palestine => "Palestine"@,
            Country::Panama => "Panama"@,
            Country::PapuaNewGuinea => "Papua New Guinea"@,
            Country::Paraguay => "Paraguay"@,
            Country::Peru => "Peru"@,
            Country::Philippines => "Philippines"@,
            Country::Poland => "Poland"@,
            Country::Portugal => "Portugal"@,
            Country::PuertoRico => "Puerto Rico"@,
            Country::Qatar => "Qatar"@,
            Country::Rhodesia => "Rhodesia"@,
            Country::Romania => "Romania"@,
            Country::Russia => "Russia"@,
            Country::Rwanda => "Rwanda"@,
            Country::Samoa => "Samoa"@,
            Country::SaudiArabia => "Saudi Arabia"@,
            Country::Scotland => "Scotland"@,
            Country::Senegal => "Senegal"@,
            Country::Serbia => "Serbia"@,
            Country::SerbiaAndMontenegro => "Serbia and Montenegro"@,
            Country::SierraLeone => "Sierra Leone"@,
            Country::Singapore => "Singapore"@,
            Country::Slovakia => "Slovakia"@,
            Country::Slovenia => "Slovenia"@,
            Country::SolomonIslands => "Solomon Islands"@,
            Country::SouthAfrica => "South Africa"@,
            Country::SouthKorea => "South Korea"@,
            Country::Spain => "Spain"@,
            Country::SriLanka => "Sri Lanka"@,
            Country::Sudan => "Sudan"@,
            Country::Suriname => "Suriname"@,
            Country::Sweden => "Sweden"@,
            Country::Switzerland => "Switzerland"@,
            Country::Syria => "Syria"@,
            Country::Tahiti => "Tahiti"@,
            Country::Taiwan => "Taiwan"@,
            Country::Tajikistan => "Tajikistan"@,
            Country::Tanzania => "Tanzania"@,
            Country::Thailand => "Thailand"@,
            Country::Togo => "Togo"@,
            Country::Tonga => "Tonga"@,
            Country::Transnistria => "Transnistria"@,
            Country::TrinidadAndTobago => "Trinidad and Tobago"@,
            Country::Tunisia => "Tunisia"@,
            Country::Turkey => "Turkey"@,
            Country::Turkmenistan => "Turkmenistan"@,
            Country::Tuvalu => "Tuvalu"@,
            Country::UAE => "UAE"@,
            Country::Uganda => "Uganda"@,
            Country::UK => "UK"@,
            Country::Ukraine => "Ukraine"@,
            Country::Uruguay => "Uruguay"@,
            Country::USA => "USA"@,
            Country::USSR => "USSR"@,
            Country::USVirginIslands => "US Virgin Islands"@,
            Country::Uzbekistan => "Uzbekistan"@,
            Country::Vanuatu => "Vanuatu"@,
            Country::Venezuela => "Venezuela"@,
            Country::Vietnam => "Vietnam"@,
            Country::Wales => "Wales"@,
            Country::WallisAndFutuna => "Wallis and Futuna"@,
            Country::WestGermany => "West Germany"@,
            Country::Yemen => "Yemen"@,
            Country::Yugoslavia => "Yugoslavia"@,
            Country::Zambia => "Zambia"@,
            Country::Zimbabwe => "Zimbabwe"@,
        }
    }

    /// The country that `name` names, if it names one.
    pub open spec fn parse(name: Seq<char>) -> Option<Country> {
        if exists|c: Country| c.name() == name {
            Some(choose|c: Country| c.name() == name)
        } else {
            None
        }
    }

    /// No two countries share a name.
    pub proof fn lemma_names(a: Country, b: Country)
        ensures
            a.name() == b.name() ==> a == b,
    {
        reveal_strlit("Abkhazia");
        reveal_strlit("Afghanistan");
        reveal_strlit("Albania");
        reveal_strlit("Algeria");
        reveal_strlit("American Samoa");
        reveal_strlit("Angola");
        reveal_strlit("Argentina");
        reveal_strlit("Armenia");
        reveal_strlit("Aruba");
        reveal_strlit("Australia");
        reveal_strlit("Austria");
        reveal_strlit("Azerbaijan");
        reveal_strlit("Bahamas");
        reveal_strlit("Bahrain");
        reveal_strlit("Bangladesh");
        reveal_strlit("Belarus");
        reveal_strlit("Belgium");
        reveal_strlit("Belize");
        reveal_strlit("Benin");
        reveal_strlit("Bolivia");
        reveal_strlit("Bosnia and Herzegovina");
        reveal_strlit("Botswana");
        reveal_strlit("Brazil");
        reveal_strlit("British Virgin Islands");
        reveal_strlit("Brunei");
        reveal_strlit("Bulgaria");
        reveal_strlit("Burkina Faso");
        reveal_strlit("Cabo Verde");
        reveal_strlit("Cambodia");
        reveal_strlit("Cameroon");
        reveal_strlit("Canada");
        reveal_strlit("Cayman Islands");
        reveal_strlit("Central African Republic");
        reveal_strlit("Chile");
        reveal_strlit("China");
        reveal_strlit("Colombia");
        reveal_strlit("Comoros");
        reveal_strlit("Congo");
        reveal_strlit("Cook Islands");
        reveal_strlit("Costa Rica");
        reveal_strlit("Croatia");
        reveal_strlit("Cuba");
        reveal_strlit("Cyprus");
        reveal_strlit("Czechia");
        reveal_strlit("Czechoslovakia");
        reveal_strlit("Denmark");
        reveal_strlit("Djibouti");
        reveal_strlit("Dominican Republic");
        reveal_strlit("East Germany");
        reveal_strlit("East Timor");
        reveal_strlit("Ecuador");
        reveal_strlit("Egypt");
        reveal_strlit("El Salvador");
        reveal_strlit("England");
        reveal_strlit("Estonia");
        reveal_strlit("Eswatini");
        reveal_strlit("Ethiopia");
        reveal_strlit("Fiji");
        reveal_strlit("Finland");
        reveal_strlit("France");
        reveal_strlit("Gabon");
        reveal_strlit("Georgia");
        reveal_strlit("Germany");
        reveal_strlit("Ghana");
        reveal_strlit("Gibraltar");
        reveal_strlit("Greece");
        reveal_strlit("Grenada");
        reveal_strlit("Guatemala");
        reveal_strlit("Guinea");
        reveal_strlit("Guinea-Bissau");
        reveal_strlit("Guyana");
        reveal_strlit("Haiti");
        reveal_strlit("Honduras");
        reveal_strlit("Hong Kong");
        reveal_strlit("Hungary");
        reveal_strlit("Iceland");
        reveal_strlit("India");
        reveal_strlit("Indonesia");
        reveal_strlit("Ireland");
        reveal_strlit("Israel");
        reveal_strlit("Italy");
        reveal_strlit("Iran");
        reveal_strlit("Iraq");
        reveal_strlit("Isle of Man");
        reveal_strlit("Ivory Coast");
        reveal_strlit("Jamaica");
        reveal_strlit("Japan");
        reveal_strlit("Jordan");
        reveal_strlit("Kazakhstan");
        reveal_strlit("Kenya");
        reveal_strlit("Kiribati");
        reveal_strlit("Kuwait");
        reveal_strlit("Kyrgyzstan");
        reveal_strlit("Laos");
        reveal_strlit("Latvia");
        reveal_strlit("Lebanon");
        reveal_strlit("Lesotho");
        reveal_strlit("Liberia");
        reveal_strlit("Libya");
        reveal_strlit("Lithuania");
        reveal_strlit("Luxembourg");
        reveal_strlit("Malaysia");
        reveal_strlit("Mali");
        reveal_strlit("Malta");
        reveal_strlit("Marshall Islands");
        reveal_strlit("Mauritania");
        reveal_strlit("Mauritius");
        reveal_strlit("Mexico");
        reveal_strlit("Moldova");
        reveal_strlit("Monaco");
        reveal_strlit("Mongolia");
        reveal_strlit("Montenegro");
        reveal_strlit("Morocco");
        reveal_strlit("Myanmar");
        reveal_strlit("Namibia");
        reveal_strlit("Nauru");
        reveal_strlit("Nepal");
        reveal_strlit("Netherlands");
        reveal_strlit("New Caledonia");
        reveal_strlit("New Zealand");
        reveal_strlit("Nicaragua");
        reveal_strlit("Niger");
        reveal_strlit("Nigeria");
        reveal_strlit("Niue");
        reveal_strlit("N.Ireland");
        reveal_strlit("North Macedonia");
        reveal_strlit("Norway");
        reveal_strlit("Oman");
        reveal_strlit("Pakistan");
        reveal_strlit("Palestine");
        reveal_strlit("Panama");
        reveal_strlit("Papua New Guinea");
        reveal_strlit("Paraguay");
        reveal_strlit("Peru");
        reveal_strlit("Philippines");
        reveal_strlit("Poland");
        reveal_strlit("Portugal");
        reveal_strlit("Puerto Rico");
        reveal_strlit("Qatar");
        reveal_strlit("Rhodesia");
        reveal_strlit("Romania");
        reveal_strlit("Russia");
        reveal_strlit("Rwanda");
        reveal_strlit("Samoa");
        reveal_strlit("Saudi Arabia");
        reveal_strlit("Scotland");
        reveal_strlit("Senegal");
        reveal_strlit("Serbia");
        reveal_strlit("Serbia and Montenegro");
        reveal_strlit("Sierra Leone");
        reveal_strlit("Singapore");
        reveal_strlit("Slovakia");
        reveal_strlit("Slovenia");
        reveal_strlit("Solomon Islands");
        reveal_strlit("South Africa");
        reveal_strlit("South Korea");
        reveal_strlit("Spain");
        reveal_strlit("Sri Lanka");
        reveal_strlit("Sudan");
        reveal_strlit("Suriname");
        reveal_strlit("Sweden");
        reveal_strlit("Switzerland");
        reveal_strlit("Syria");
        reveal_strlit("Tahiti");
        reveal_strlit("Taiwan");
        reveal_strlit("Tajikistan");
        reveal_strlit("Tanzania");
        reveal_strlit("Thailand");
        reveal_strlit("Togo");
        reveal_strlit("Tonga");
        reveal_strlit("Transnistria");
        reveal_strlit("Trinidad and Tobago");
        reveal_strlit("Tunisia");
        reveal_strlit("Turkey");
        reveal_strlit("Turkmenistan");
        reveal_strlit("Tuvalu");
        reveal_strlit("UAE");
        reveal_strlit("Uganda");
        reveal_strlit("UK");
        reveal_strlit("Ukraine");
        reveal_strlit("Uruguay");
        reveal_strlit("USA");
        reveal_strlit("USSR");
        reveal_strlit("US Virgin Islands");
        reveal_strlit("Uzbekistan");
        reveal_strlit("Vanuatu");
        reveal_strlit("Venezuela");
        reveal_strlit("Vietnam");
        reveal_strlit("Wales");
        reveal_strlit("Wallis and Futuna");
        reveal_strlit("West Germany");
        reveal_strlit("Yemen");
        reveal_strlit("Yugoslavia");
        reveal_strlit("Zambia");
        reveal_strlit("Zimbabwe");
        assert(a.name() == b.name() ==> outline(a.name()) == outline(b.name()));
    }

    /// Every country has a name.
    pub proof fn lemma_name_is_not_empty(c: Country)
        ensures
            c.name().len() > 0,
    {
        reveal_strlit("Abkhazia");
        reveal_strlit("Afghanistan");
        reveal_strlit("Albania");
        reveal_strlit("Algeria");
        reveal_strlit("American Samoa");
        reveal_strlit("Angola");
        reveal_strlit("Argentina");
        reveal_strlit("Armenia");
        reveal_strlit("Aruba");
        reveal_strlit("Australia");
        reveal_strlit("Austria");
        reveal_strlit("Azerbaijan");
        reveal_strlit("Bahamas");
        reveal_strlit("Bahrain");
        reveal_strlit("Bangladesh");
        reveal_strlit("Belarus");
        reveal_strlit("Belgium");
        reveal_strlit("Belize");
        reveal_strlit("Benin");
        reveal_strlit("Bolivia");
        reveal_strlit("Bosnia and Herzegovina");
        reveal_strlit("Botswana");
        reveal_strlit("Brazil");
        reveal_strlit("British Virgin Islands");
        reveal_strlit("Brunei");
        reveal_strlit("Bulgaria");
        reveal_strlit("Burkina Faso");
        reveal_strlit("Cabo Verde");
        reveal_strlit("Cambodia");
        reveal_strlit("Cameroon");
        reveal_strlit("Canada");
        reveal_strlit("Cayman Islands");
        reveal_strlit("Central African Republic");
        reveal_strlit("Chile");
        reveal_strlit("China");
        reveal_strlit("Colombia");
        reveal_strlit("Comoros");
        reveal_strlit("Congo");
        reveal_strlit("Cook Islands");
        reveal_strlit("Costa Rica");
        reveal_strlit("Croatia");
        reveal_strlit("Cuba");
        reveal_strlit("Cyprus");
        reveal_strlit("Czechia");
        reveal_strlit("Czechoslovakia");
        reveal_strlit("Denmark");
        reveal_strlit("Djibouti");
        reveal_strlit("Dominican Republic");
        reveal_strlit("East Germany");
        reveal_strlit("East Timor");
        reveal_strlit("Ecuador");
        reveal_strlit("Egypt");
        reveal_strlit("El Salvador");
        reveal_strlit("England");
        reveal_strlit("Estonia");
        reveal_strlit("Eswatini");
        reveal_strlit("Ethiopia");
        reveal_strlit("Fiji");
        reveal_strlit("Finland");
        reveal_strlit("France");
        reveal_strlit("Gabon");
        reveal_strlit("Georgia");
        reveal_strlit("Germany");
        reveal_strlit("Ghana");
        reveal_strlit("Gibraltar");
        reveal_strlit("Greece");
        reveal_strlit("Grenada");
        reveal_strlit("Guatemala");
        reveal_strlit("Guinea");
        reveal_strlit("Guinea-Bissau");
        reveal_strlit("Guyana");
        reveal_strlit("Haiti");
        reveal_strlit("Honduras");
        reveal_strlit("Hong Kong");
        reveal_strlit("Hungary");
        reveal_strlit("Iceland");
        reveal_strlit("India");
        reveal_strlit("Indonesia");
        reveal_strlit("Ireland");
        reveal_strlit("Israel");
        reveal_strlit("Italy");
        reveal_strlit("Iran");
        reveal_strlit("Iraq");
        reveal_strlit("Isle of Man");
        reveal_strlit("Ivory Coast");
        reveal_strlit("Jamaica");
        reveal_strlit("Japan");
        reveal_strlit("Jordan");
        reveal_strlit("Kazakhstan");
        reveal_strlit("Kenya");
        reveal_strlit("Kiribati");
        reveal_strlit("Kuwait");
        reveal_strlit("Kyrgyzstan");
        reveal_strlit("Laos");
        reveal_strlit("Latvia");
        reveal_strlit("Lebanon");
        reveal_strlit("Lesotho");
        reveal_strlit("Liberia");
        reveal_strlit("Libya");
        reveal_strlit("Lithuania");
        reveal_strlit("Luxembourg");
        reveal_strlit("Malaysia");
        reveal_strlit("Mali");
        reveal_strlit("Malta");
        reveal_strlit("Marshall Islands");
        reveal_strlit("Mauritania");
        reveal_strlit("Mauritius");
        reveal_strlit("Mexico");
        reveal_strlit("Moldova");
        reveal_strlit("Monaco");
        reveal_strlit("Mongolia");
        reveal_strlit("Montenegro");
        reveal_strlit("Morocco");
        reveal_strlit("Myanmar");
        reveal_strlit("Namibia");
        reveal_strlit("Nauru");
        reveal_strlit("Nepal");
        reveal_strlit("Netherlands");
        reveal_strlit("New Caledonia");
        reveal_strlit("New Zealand");
        reveal_strlit("Nicaragua");
        reveal_strlit("Niger");
        reveal_strlit("Nigeria");
        reveal_strlit("Niue");
        reveal_strlit("N.Ireland");
        reveal_strlit("North Macedonia");
        reveal_strlit("Norway");
        reveal_strlit("Oman");
        reveal_strlit("Pakistan");
        reveal_strlit("Palestine");
        reveal_strlit("Panama");
        reveal_strlit("Papua New Guinea");
        reveal_strlit("Paraguay");
        reveal_strlit("Peru");
        reveal_strlit("Philippines");
        reveal_strlit("Poland");
        reveal_strlit("Portugal");
        reveal_strlit("Puerto Rico");
        reveal_strlit("Qatar");
        reveal_strlit("Rhodesia");
        reveal_strlit("Romania");
        reveal_strlit("Russia");
        reveal_strlit("Rwanda");
        reveal_strlit("Samoa");
        reveal_strlit("Saudi Arabia");
        reveal_strlit("Scotland");
        reveal_strlit("Senegal");
        reveal_strlit("Serbia");
        reveal_strlit("Serbia and Montenegro");
        reveal_strlit("Sierra Leone");
        reveal_strlit("Singapore");
        reveal_strlit("Slovakia");
        reveal_strlit("Slovenia");
        reveal_strlit("Solomon Islands");
        reveal_strlit("South Africa");
        reveal_strlit("South Korea");
        reveal_strlit("Spain");
        reveal_strlit("Sri Lanka");
        reveal_strlit("Sudan");
        reveal_strlit("Suriname");
        reveal_strlit("Sweden");
        reveal_strlit("Switzerland");
        reveal_strlit("Syria");
        reveal_strlit("Tahiti");
        reveal_strlit("Taiwan");
        reveal_strlit("Tajikistan");
        reveal_strlit("Tanzania");
        reveal_strlit("Thailand");
        reveal_strlit("Togo");
        reveal_strlit("Tonga");
        reveal_strlit("Transnistria");
        reveal_strlit("Trinidad and Tobago");
        reveal_strlit("Tunisia");
        reveal_strlit("Turkey");
        reveal_strlit("Turkmenistan");
        reveal_strlit("Tuvalu");
        reveal_strlit("UAE");
        reveal_strlit("Uganda");
        reveal_strlit("UK");
        reveal_strlit("Ukraine");
        reveal_strlit("Uruguay");
        reveal_strlit("USA");
        reveal_strlit("USSR");
        reveal_strlit("US Virgin Islands");
        reveal_strlit("Uzbekistan");
        reveal_strlit("Vanuatu");
        reveal_strlit("Venezuela");
        reveal_strlit("Vietnam");
        reveal_strlit("Wales");
        reveal_strlit("Wallis and Futuna");
        reveal_strlit("West Germany");
        reveal_strlit("Yemen");
        reveal_strlit("Yugoslavia");
        reveal_strlit("Zambia");
        reveal_strlit("Zimbabwe");
    }

    /// Parsing the name of a country gives that country back.
    pub proof fn lemma_parse_name(c: Country)
        ensures
            Country::parse(c.name()) == Some(c),
    {
        Country::lemma_names(c, choose|d: Country| d.name() == c.name());
    }

    /// The name of this country.
    pub fn as_str(self) -> (name: &'static str)
        ensures
            name@ == self.name(),
    {
        match self {
            Country::Abkhazia => "Abkhazia",
            Country::Afghanistan => "Afghanistan",
            Country::Albania => "Albania",
            Country::Algeria => "Algeria",
            Country::AmericanSamoa => "American Samoa",
            Country::Angola => "Angola",
            Country::Argentina => "Argentina",
            Country::Armenia => "Armenia",
            Country::Aruba => "Aruba",
            Country::Australia => "Australia",
            Country::Austria => "Austria",
            Country::Azerbaijan => "Azerbaijan",
            Country::Bahamas => "Bahamas",
            Country::Bahrain => "Bahrain",
            Country::Bangladesh => "Bangladesh",
            Country::Belarus => "Belarus",
            Country::Belgium => "Belgium",
            Country::Belize => "Belize",
            Country::Benin => "Benin",
            Country::Bolivia => "Bolivia",
            Country::BosniaAndHerzegovina => "Bosnia and Herzegovina",
            Country::Botswana => "Botswana",
            Country::Brazil => "Brazil",
            Country::BritishVirginIslands => "British Virgin Islands",
            Country::Brunei => "Brunei",
            Country::Bulgaria => "Bulgaria",
            Country::BurkinaFaso => "Burkina Faso",
            Country::CaboVerde => "Cabo Verde",
            Country::Cambodia => "Cambodia",
            Country::Cameroon => "Cameroon",
            Country::Canada => "Canada",
            Country::CaymanIslands => "Cayman Islands",
            Country::CentralAfricanRepublic => "Central African Republic",
            Country::Chile => "Chile",
            Country::China => "China",
            Country::Colombia => "Colombia",
            Country::Comoros => "Comoros",
            Country::Congo => "Congo",
            Country::CookIslands => "Cook Islands",
            Country::CostaRica => "Costa Rica",
            Country::Croatia => "Croatia",
            Country::Cuba => "Cuba",
            Country::Cyprus => "Cyprus",
            Country::Czechia => "Czechia",
            Country::Czechoslovakia => "Czechoslovakia",
            Country::Denmark => "Denmark",
            Country::Djibouti => "Djibouti",
            Country::DominicanRepublic => "Dominican Republic",
            Country::EastGermany => "East Germany",
            Country::EastTimor => "East Timor",
            Country::Ecuador => "Ecuador",
            Country::Egypt => "Egypt",
            Country::ElSalvador => "El Salvador",
            Country::England => "England",
            Country::Estonia => "Estonia",
            Country::Eswatini => "Eswatini",
            Country::Ethiopia => "Ethiopia",
            Country::Fiji => "Fiji",
            Country::Finland => "Finland",
            Country::France => "France",
            Country::Gabon => "Gabon",
            Country::Georgia => "Georgia",
            Country::Germany => "Germany",
            Country::Ghana => "Ghana",
            Country::Gibraltar => "Gibraltar",
            Country::Greece => "Greece",
            Country::Grenada => "Grenada",
            Country::Guatemala => "Guatemala",
            Country::Guinea => "Guinea",
            Country::GuineaBissau => "Guinea-Bissau",
            Country::Guyana => "Guyana",
            Country::Haiti => "Haiti",
            Country::Honduras => "Honduras",
            Country::HongKong => "Hong Kong",
            Country::Hungary => "Hungary",
            Country::Iceland => "Iceland",
            Country::India => "India",
            Country::Indonesia => "Indonesia",
            Country::Ireland => "Ireland",
            Country::Israel => "Israel",
            Country::Italy => "Italy",
            Country::Iran => "Iran",
            Country::Iraq => "Iraq",
            Country::IsleOfMan => "Isle of Man",
            Country::IvoryCoast => "Ivory Coast",
            Country::Jamaica => "Jamaica",
            Country::Japan => "Japan",
            Country::Jordan => "Jordan",
            Country::Kazakhstan => "Kazakhstan",
            Country::Kenya => "Kenya",
            Country::Kiribati => "Kiribati",
            Country::Kuwait => "Kuwait",
            Country::Kyrgyzstan => "Kyrgyzstan",
            Country::Laos => "Laos",
            Country::Latvia => "Latvia",
            Country::Lebanon => "Lebanon",
            Country::Lesotho => "Lesotho",
            Country::Liberia => "Liberia",
            Country::Libya => "Libya",
            Country::Lithuania => "Lithuania",
            Country::Luxembourg => "Luxembourg",
            Country::Malaysia => "Malaysia",
            Country::Mali => "Mali",
            Country::Malta => "Malta",
            Country::MarshallIslands => "Marshall Islands",
            Country::Mauritania => "Mauritania",
            Country::Mauritius => "Mauritius",
            Country::Mexico => "Mexico",
            Country::Moldova => "Moldova",
            Country::Monaco => "Monaco",
            Country::Mongolia => "Mongolia",
            Country::Montenegro => "Montenegro",
            Country::Morocco => "Morocco",
            Country::Myanmar => "Myanmar",
            Country::Namibia => "Namibia",
            Country::Nauru => "Nauru",
            Country::Nepal => "Nepal",
            Country::Netherlands => "Netherlands",
            Country::NewCaledonia => "New Caledonia",
            Country::NewZealand => "New Zealand",
            Country::Nicaragua => "Nicaragua",
            Country::Niger => "Niger",
            Country::Nigeria => "Nigeria",
            Country::Niue => "Niue",
            Country::NorthernIreland => "N.Ireland",
            Country::NorthMacedonia => "North Macedonia",
            Country::Norway => "Norway",
            Country::Oman => "Oman",
            Country::Pakistan => "Pakistan",
            Country::Palestine => "Palestine",
            Country::Panama => "Panama",
            Country::PapuaNewGuinea => "Papua New Guinea",
            Country::Paraguay => "Paraguay",
            Country::Peru => "Peru",
            Country::Philippines => "Philippines",
            Country::Poland => "Poland",
            Country::Portugal => "Portugal",
            Country::PuertoRico => "Puerto Rico",
            Country::Qatar => "Qatar",
            Country::Rhodesia => "Rhodesia",
            Country::Romania => "Romania",
            Country::Russia => "Russia",
            Country::Rwanda => "Rwanda",
            Country::Samoa => "Samoa",
            Country::SaudiArabia => "Saudi Arabia",
            Country::Scotland => "Scotland",
            Country::Senegal => "Senegal",
            Country::Serbia => "Serbia",
            Country::SerbiaAndMontenegro => "Serbia and Montenegro",
            Country::SierraLeone => "Sierra Leone",
            Country::Singapore => "Singapore",
            Country::Slovakia => "Slovakia",
            Country::Slovenia => "Slovenia",
            Country::SolomonIslands => "Solomon Islands",
            Country::SouthAfrica => "South Africa",
            Country::SouthKorea => "South Korea",
            Country::Spain => "Spain",
            Country::SriLanka => "Sri Lanka",
            Country::Sudan => "Sudan",
            Country::Suriname => "Suriname",
            Country::Sweden => "Sweden",
            Country::Switzerland => "Switzerland",
            Country::Syria => "Syria",
            Country::Tahiti => "Tahiti",
            Country::Taiwan => "Taiwan",
            Country::Tajikistan => "Tajikistan",
            Country::Tanzania => "Tanzania",
            Country::Thailand => "Thailand",
            Country::Togo => "Togo",
            Country::Tonga => "Tonga",
            Country::Transnistria => "Transnistria",
            Country::TrinidadAndTobago => "Trinidad and Tobago",
            Country::Tunisia => "Tunisia",
            Country::Turkey => "Turkey",
            Country::Turkmenistan => "Turkmenistan",
            Country::Tuvalu => "Tuvalu",
            Country::UAE => "UAE",
            Country::Uganda => "Uganda",
            Country::UK => "UK",
            Country::Ukraine => "Ukraine",
            Country::Uruguay => "Uruguay",
            Country::USA => "USA",
            Country::USSR => "USSR",
            Country::USVirginIslands => "US Virgin Islands",
            Country::Uzbekistan => "Uzbekistan",
            Country::Vanuatu => "Vanuatu",
            Country::Venezuela => "Venezuela",
            Country::Vietnam => "Vietnam",
            Country::Wales => "Wales",
            Country::WallisAndFutuna => "Wallis and Futuna",
            Country::WestGermany => "West Germany",
            Country::Yemen => "Yemen",
            Country::Yugoslavia => "Yugoslavia",
            Country::Zambia => "Zambia",
            Country::Zimbabwe => "Zimbabwe",
        }
    }

    /// The name of this country, as an owned string.
    pub fn to_string(self) -> (name: String)
        ensures
            name@ == self.name(),
    {
        self.as_str().to_owned()
    }

    /// The country whose name is exactly `s`.
    fn find(s: &str) -> (found: Option<Country>)
        ensures
            match found {
                Some(c) => c.name() == s@,
                None => forall|c: Country| c.name() != s@,
            },
    {
        if str_eq(s, "Abkhazia") {
            return Some(Country::Abkhazia);
        }
        if str_eq(s, "Afghanistan") {
            return Some(Country::Afghanistan);
        }
        if str_eq(s, "Albania") {
            return Some(Country::Albania);
        }
        if str_eq(s, "Algeria") {
            return Some(Country::Algeria);
        }
        if str_eq(s, "American Samoa") {
            return Some(Country::AmericanSamoa);
        }
        if str_eq(s, "Angola") {
            return Some(Country::Angola);
        }
        if str_eq(s, "Argentina") {
            return Some(Country::Argentina);
        }
        if str_eq(s, "Armenia") {
            return Some(Country::Armenia);
        }
        if str_eq(s, "Aruba") {
            return Some(Country::Aruba);
        }
        if str_eq(s, "Australia") {
            return Some(Country::Australia);
        }
        if str_eq(s, "Austria") {
            return Some(Country::Austria);
        }
        if str_eq(s, "Azerbaijan") {
            return Some(Country::Azerbaijan);
        }
        if str_eq(s, "Bahamas") {
            return Some(Country::Bahamas);
        }
        if str_eq(s, "Bahrain") {
            return Some(Country::Bahrain);
        }
        if str_eq(s, "Bangladesh") {
            return Some(Country::Bangladesh);
        }
        if str_eq(s, "Belarus") {
            return Some(Country::Belarus);
        }
        if str_eq(s, "Belgium") {
            return Some(Country::Belgium);
        }
        if str_eq(s, "Belize") {
            return Some(Country::Belize);
        }
        if str_eq(s, "Benin") {
            return Some(Country::Benin);
        }
        if str_eq(s, "Bolivia") {
            return Some(Country::Bolivia);
        }
        if str_eq(s, "Bosnia and Herzegovina") {
            return Some(Country::BosniaAndHerzegovina);
        }
        if str_eq(s, "Botswana") {
            return Some(Country::Botswana);
        }
        if str_eq(s, "Brazil") {
            return Some(Country::Brazil);
        }
        if str_eq(s, "British Virgin Islands") {
            return Some(Country::BritishVirginIslands);
        }
        if str_eq(s, "Brunei") {
            return Some(Country::Brunei);
        }
        if str_eq(s, "Bulgaria") {
            return Some(Country::Bulgaria);
        }
        if str_eq(s, "Burkina Faso") {
            return Some(Country::BurkinaFaso);
        }
        if str_eq(s, "Cabo Verde") {
            return Some(Country::CaboVerde);
        }
        if str_eq(s, "Cambodia") {
            return Some(Country::Cambodia);
        }
        if str_eq(s, "Cameroon") {
            return Some(Country::Cameroon);
        }
        if str_eq(s, "Canada") {
            return Some(Country::Canada);
        }
        if str_eq(s, "Cayman Islands") {
            return Some(Country::CaymanIslands);
        }
        if str_eq(s, "Central African Republic") {
            return Some(Country::CentralAfricanRepublic);
        }
        if str_eq(s, "Chile") {
            return Some(Country::Chile);
        }
        if str_eq(s, "China") {
            return Some(Country::China);
        }
        if str_eq(s, "Colombia") {
            return Some(Country::Colombia);
        }
        if str_eq(s, "Comoros") {
            return Some(Country::Comoros);
        }
        if str_eq(s, "Congo") {
            return Some(Country::Congo);
        }
        if str_eq(s, "Cook Islands") {
            return Some(Country::CookIslands);
        }
        if str_eq(s, "Costa Rica") {
            return Some(Country::CostaRica);
        }
        if str_eq(s, "Croatia") {
            return Some(Country::Croatia);
        }
        if str_eq(s, "Cuba") {
            return Some(Country::Cuba);
        }
        if str_eq(s, "Cyprus") {
            return Some(Country::Cyprus);
        }
        if str_eq(s, "Czechia") {
            return Some(Country::Czechia);
        }
        if str_eq(s, "Czechoslovakia") {
            return Some(Country::Czechoslovakia);
        }
        if str_eq(s, "Denmark") {
            return Some(Country::Denmark);
        }
        if str_eq(s, "Djibouti") {
            return Some(Country::Djibouti);
        }
        if str_eq(s, "Dominican Republic") {
            return Some(Country::DominicanRepublic);
        }
        if str_eq(s, "East Germany") {
            return Some(Country::EastGermany);
        }
        if str_eq(s, "East Timor") {
            return Some(Country::EastTimor);
        }
        if str_eq(s, "Ecuador") {
            return Some(Country::Ecuador);
        }
        if str_eq(s, "Egypt") {
            return Some(Country::Egypt);
        }
        if str_eq(s, "El Salvador") {
            return Some(Country::ElSalvador);
        }
        if str_eq(s, "England") {
            return Some(Country::England);
        }
        if str_eq(s, "Estonia") {
            return Some(Country::Estonia);
        }
        if str_eq(s, "Eswatini") {
            return Some(Country::Eswatini);
        }
        if str_eq(s, "Ethiopia") {
            return Some(Country::Ethiopia);
        }
        if str_eq(s, "Fiji") {
            return Some(Country::Fiji);
        }
        if str_eq(s, "Finland") {
            return Some(Country::Finland);
        }
        if str_eq(s, "France") {
            return Some(Country::France);
        }
        if str_eq(s, "Gabon") {
            return Some(Country::Gabon);
        }
        if str_eq(s, "Georgia") {
            return Some(Country::Georgia);
        }
        if str_eq(s, "Germany") {
            return Some(Country::Germany);
        }
        if str_eq(s, "Ghana") {
            return Some(Country::Ghana);
        }
        if str_eq(s, "Gibraltar") {
            return Some(Country::Gibraltar);
        }
        if str_eq(s, "Greece") {
            return Some(Country::Greece);
        }
        if str_eq(s, "Grenada") {
            return Some(Country::Grenada);
        }
        if str_eq(s, "Guatemala") {
            return Some(Country::Guatemala);
        }
        if str_eq(s, "Guinea") {
            return Some(Country::Guinea);
        }
        if str_eq(s, "Guinea-Bissau") {
            return Some(Country::GuineaBissau);
        }
        if str_eq(s, "Guyana") {
            return Some(Country::Guyana);
        }
        if str_eq(s, "Haiti") {
            return Some(Country::Haiti);
        }
        if str_eq(s, "Honduras") {
            return Some(Country::Honduras);
        }
        if str_eq(s, "Hong Kong") {
            return Some(Country::HongKong);
        }
        if str_eq(s, "Hungary") {
            return Some(Country::Hungary);
        }
        if str_eq(s, "Iceland") {
            return Some(Country::Iceland);
        }
        if str_eq(s, "India") {
            return Some(Country::India);
        }
        if str_eq(s, "Indonesia") {
            return Some(Country::Indonesia);
        }
        if str_eq(s, "Ireland") {
            return Some(Country::Ireland);
        }
        if str_eq(s, "Israel") {
            return Some(Country::Israel);
        }
        if str_eq(s, "Italy") {
            return Some(Country::Italy);
        }
        if str_eq(s, "Iran") {
            return Some(Country::Iran);
        }
        if str_eq(s, "Iraq") {
            return Some(Country::Iraq);
        }
        if str_eq(s, "Isle of Man") {
            return Some(Country::IsleOfMan);
        }
        if str_eq(s, "Ivory Coast") {
            return Some(Country::IvoryCoast);
        }
        if str_eq(s, "Jamaica") {
            return Some(Country::Jamaica);
        }
        if str_eq(s, "Japan") {
            return Some(Country::Japan);
        }
        if str_eq(s, "Jordan") {
            return Some(Country::Jordan);
        }
        if str_eq(s, "Kazakhstan") {
            return Some(Country::Kazakhstan);
        }
        if str_eq(s, "Kenya") {
            return Some(Country::Kenya);
        }
        if str_eq(s, "Kiribati") {
            return Some(Country::Kiribati);
        }
        if str_eq(s, "Kuwait") {
            return Some(Country::Kuwait);
        }
        if str_eq(s, "Kyrgyzstan") {
            return Some(Country::Kyrgyzstan);
        }
        if str_eq(s, "Laos") {
            return Some(Country::Laos);
        }
        if str_eq(s, "Latvia") {
            return Some(Country::Latvia);
        }
        if str_eq(s, "Lebanon") {
            return Some(Country::Lebanon);
        }
        if str_eq(s, "Lesotho") {
            return Some(Country::Lesotho);
        }
        if str_eq(s, "Liberia") {
            return Some(Country::Liberia);
        }
        if str_eq(s, "Libya") {
            return Some(Country::Libya);
        }
        if str_eq(s, "Lithuania") {
            return Some(Country::Lithuania);
        }
        if str_eq(s, "Luxembourg") {
            return Some(Country::Luxembourg);
        }
        if str_eq(s, "Malaysia") {
            return Some(Country::Malaysia);
        }
        if str_eq(s, "Mali") {
            return Some(Country::Mali);
        }
        if str_eq(s, "Malta") {
            return Some(Country::Malta);
        }
        if str_eq(s, "Marshall Islands") {
            return Some(Country::MarshallIslands);
        }
        if str_eq(s, "Mauritania") {
            return Some(Country::Mauritania);
        }
        if str_eq(s, "Mauritius") {
            return Some(Country::Mauritius);
        }
        if str_eq(s, "Mexico") {
            return Some(Country::Mexico);
        }
        if str_eq(s, "Moldova") {
            return Some(Country::Moldova);
        }
        if str_eq(s, "Monaco") {
            return Some(Country::Monaco);
        }
        if str_eq(s, "Mongolia") {
            return Some(Country::Mongolia);
        }
        if str_eq(s, "Montenegro") {
            return Some(Country::Montenegro);
        }
        if str_eq(s, "Morocco") {
            return Some(Country::Morocco);
        }
        if str_eq(s, "Myanmar") {
            return Some(Country::Myanmar);
        }
        if str_eq(s, "Namibia") {
            return Some(Country::Namibia);
        }
        if str_eq(s, "Nauru") {
            return Some(Country::Nauru);
        }
        if str_eq(s, "Nepal") {
            return Some(Country::Nepal);
        }
        if str_eq(s, "Netherlands") {
            return Some(Country::Netherlands);
        }
        if str_eq(s, "New Caledonia") {
            return Some(Country::NewCaledonia);
        }
        if str_eq(s, "New Zealand") {
            return Some(Country::NewZealand);
        }
        if str_eq(s, "Nicaragua") {
            return Some(Country::Nicaragua);
        }
        if str_eq(s, "Niger") {
            return Some(Country::Niger);
        }
        if str_eq(s, "Nigeria") {
            return Some(Country::Nigeria);
        }
        if str_eq(s, "Niue") {
            return Some(Country::Niue);
        }
        if str_eq(s, "N.Ireland") {
            return Some(Country::NorthernIreland);
        }
        if str_eq(s, "North Macedonia") {
            return Some(Country::NorthMacedonia);
        }
        if str_eq(s, "Norway") {
            return Some(Country::Norway);
        }
        if str_eq(s, "Oman") {
            return Some(Country::Oman);
        }
        if str_eq(s, "Pakistan") {
            return Some(Country::Pakistan);
        }
        if str_eq(s, "Palestine") {
            return Some(Country::Palestine);
        }
        if str_eq(s, "Panama") {
            return Some(Country::Panama);
        }
        if str_eq(s, "Papua New Guinea") {
            return Some(Country::PapuaNewGuinea);
        }
        if str_eq(s, "Paraguay") {
            return Some(Country::Paraguay);
        }
        if str_eq(s, "Peru") {
            return Some(Country::Peru);
        }
        if str_eq(s, "Philippines") {
            return Some(Country::Philippines);
        }
        if str_eq(s, "Poland") {
            return Some(Country::Poland);
        }
        if str_eq(s, "Portugal") {
            return Some(Country::Portugal);
        }
        if str_eq(s, "Puerto Rico") {
            return Some(Country::PuertoRico);
        }
        if str_eq(s, "Qatar") {
            return Some(Country::Qatar);
        }
        if str_eq(s, "Rhodesia") {
            return Some(Country::Rhodesia);
        }
        if str_eq(s, "Romania") {
            return Some(Country::Romania);
        }
        if str_eq(s, "Russia") {
            return Some(Country::Russia);
        }
        if str_eq(s, "Rwanda") {
            return Some(Country::Rwanda);
        }
        if str_eq(s, "Samoa") {
            return Some(Country::Samoa);
        }
        if str_eq(s, "Saudi Arabia") {
            return Some(Country::SaudiArabia);
        }
        if str_eq(s, "Scotland") {
            return Some(Country::Scotland);
        }
        if str_eq(s, "Senegal") {
            return Some(Country::Senegal);
        }
        if str_eq(s, "Serbia") {
            return Some(Country::Serbia);
        }
        if str_eq(s, "Serbia and Montenegro") {
            return Some(Country::SerbiaAndMontenegro);
        }
        if str_eq(s, "Sierra Leone") {
            return Some(Country::SierraLeone);
        }
        if str_eq(s, "Singapore") {
            return Some(Country::Singapore);
        }
        if str_eq(s, "Slovakia") {
            return Some(Country::Slovakia);
        }
        if str_eq(s, "Slovenia") {
            return Some(Country::Slovenia);
        }
        if str_eq(s, "Solomon Islands") {
            return Some(Country::SolomonIslands);
        }
        if str_eq(s, "South Africa") {
            return Some(Country::SouthAfrica);
        }
        if str_eq(s, "South Korea") {
            return Some(Country::SouthKorea);
        }
        if str_eq(s, "Spain") {
            return Some(Country::Spain);
        }
        if str_eq(s, "Sri Lanka") {
            return Some(Country::SriLanka);
        }
        if str_eq(s, "Sudan") {
            return Some(Country::Sudan);
        }
        if str_eq(s, "Suriname") {
            return Some(Country::Suriname);
        }
        if str_eq(s, "Sweden") {
            return Some(Country::Sweden);
        }
        if str_eq(s, "Switzerland") {
            return Some(Country::Switzerland);
        }
        if str_eq(s, "Syria") {
            return Some(Country::Syria);
        }
        if str_eq(s, "Tahiti") {
            return Some(Country::Tahiti);
        }
        if str_eq(s, "Taiwan") {
            return Some(Country::Taiwan);
        }
        if str_eq(s, "Tajikistan") {
            return Some(Country::Tajikistan);
        }
        if str_eq(s, "Tanzania") {
            return Some(Country::Tanzania);
        }
        if str_eq(s, "Thailand") {
            return Some(Country::Thailand);
        }
        if str_eq(s, "Togo") {
            return Some(Country::Togo);
        }
        if str_eq(s, "Tonga") {
            return Some(Country::Tonga);
        }
        if str_eq(s, "Transnistria") {
            return Some(Country::Transnistria);
        }
        if str_eq(s, "Trinidad and Tobago") {
            return Some(Country::TrinidadAndTobago);
        }
        if str_eq(s, "Tunisia") {
            return Some(Country::Tunisia);
        }
        if str_eq(s, "Turkey") {
            return Some(Country::Turkey);
        }
        if str_eq(s, "Turkmenistan") {
            return Some(Country::Turkmenistan);
        }
        if str_eq(s, "Tuvalu") {
            return Some(Country::Tuvalu);
        }
        if str_eq(s, "UAE") {
            return Some(Country::UAE);
        }
        if str_eq(s, "Uganda") {
            return Some(Country::Uganda);
        }
        if str_eq(s, "UK") {
            return Some(Country::UK);
        }
        if str_eq(s, "Ukraine") {
            return Some(Country::Ukraine);
        }
        if str_eq(s, "Uruguay") {
            return Some(Country::Uruguay);
        }
        if str_eq(s, "USA") {
            return Some(Country::USA);
        }
        if str_eq(s, "USSR") {
            return Some(Country::USSR);
        }
        if str_eq(s, "US Virgin Islands") {
            return Some(Country::USVirginIslands);
        }
        if str_eq(s, "Uzbekistan") {
            return Some(Country::Uzbekistan);
        }
        if str_eq(s, "Vanuatu") {
            return Some(Country::Vanuatu);
        }
        if str_eq(s, "Venezuela") {
            return Some(Country::Venezuela);
        }
        if str_eq(s, "Vietnam") {
            return Some(Country::Vietnam);
        }
        if str_eq(s, "Wales") {
            return Some(Country::Wales);
        }
        if str_eq(s, "Wallis and Futuna") {
            return Some(Country::WallisAndFutuna);
        }
        if str_eq(s, "West Germany") {
            return Some(Country::WestGermany);
        }
        if str_eq(s, "Yemen") {
            return Some(Country::Yemen);
        }
        if str_eq(s, "Yugoslavia") {
            return Some(Country::Yugoslavia);
        }
        if str_eq(s, "Zambia") {
            return Some(Country::Zambia);
        }
        if str_eq(s, "Zimbabwe") {
            return Some(Country::Zimbabwe);
        }
        None
    }

    /// Parses the name of a country. The match is exact and case-sensitive.
    pub fn from_str(s: &str) -> (parsed: Result<Country, ParseFailure>)
        ensures
            parsed == match Country::parse(s@) {
                Some(c) => Ok::<Country, ParseFailure>(c),
                None => Err(ParseFailure::VariantNotFound),
            },
    {
        match Country::find(s) {
            Some(c) => {
                proof {
                    Country::lemma_names(c, choose|d: Country| d.name() == s@);
                }
                Ok(c)
            },
            None => Err(ParseFailure::VariantNotFound),
        }
    }
}

} // verus!
