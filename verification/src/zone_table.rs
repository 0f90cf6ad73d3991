//! The tz database's `zone1970.tab`, release 2025b: one row per zone, with the
//! countries that use it, the zone's coordinates, its name and a comment, separated
//! by tabs. Lines that start with `#` are comments.
use vstd::prelude::*;

verus! {

/// The text of `zone1970.tab`.
pub const ZONE_TABLE: &'static str = "\
# tzdb timezone descriptions\n\
#\n\
# This file is in the public domain.\n\
#\n\
# From Paul Eggert (2018-06-27):\n\
# This file contains a table where each row stands for a timezone where\n\
# civil timestamps have agreed since 1970.  Columns are separated by\n\
# a single tab.  Lines beginning with '#' are comments.  All text uses\n\
# UTF-8 encoding.  The columns of the table are as follows:\n\
#\n\
# 1.  The countries that overlap the timezone, as a comma-separated list\n\
#     of ISO 3166 2-character country codes.  See the file 'iso3166.tab'.\n\
# 2.  Latitude and longitude of the timezone's principal location\n\
#     in ISO 6709 sign-degrees-minutes-seconds format,\n\
#     either \u{b1}DDMM\u{b1}DDDMM or \u{b1}DDMMSS\u{b1}DDDMMSS,\n\
#     first latitude (+ is north), then longitude (+ is east).\n\
# 3.  Timezone name used in value of TZ environment variable.\n\
#     Please see the theory.html file for how these names are chosen.\n\
#     If multiple timezones overlap a country, each has a row in the\n\
#     table, with each column 1 containing the country code.\n\
# 4.  Comments; present if and only if countries have multiple timezones,\n\
#     and useful only for those countries.  For example, the comments\n\
#     for the row with countries CH,DE,LI and name Europe/Zurich\n\
#     are useful only for DE, since CH and LI have no other timezones.\n\
#\n\
# If a timezone covers multiple countries, the most-populous city is used,\n\
# and that country is listed first in column 1; any other countries\n\
# are listed alphabetically by country code.  The table is sorted\n\
# first by country code, then (if possible) by an order within the\n\
# country that (1) makes some geographical sense, and (2) puts the\n\
# most populous timezones first, where that does not contradict (1).\n\
#\n\
# This table is intended as an aid for users, to help them select timezones\n\
# appropriate for their practical needs.  It is not intended to take or\n\
# endorse any position on legal or territorial claims.\n\
#\n\
#country-\n\
#codes\tcoordinates\tTZ\tcomments\n\
AD\t+4230+00131\tEurope/Andorra\n\
AE,OM,RE,SC,TF\t+2518+05518\tAsia/Dubai\tCrozet\n\
AF\t+3431+06912\tAsia/Kabul\n\
AL\t+4120+01950\tEurope/Tirane\n\
AM\t+4011+04430\tAsia/Yerevan\n\
AQ\t-6617+11031\tAntarctica/Casey\tCasey\n\
AQ\t-6835+07758\tAntarctica/Davis\tDavis\n\
AQ\t-6736+06253\tAntarctica/Mawson\tMawson\n\
AQ\t-6448-06406\tAntarctica/Palmer\tPalmer\n\
AQ\t-6734-06808\tAntarctica/Rothera\tRothera\n\
AQ\t-720041+0023206\tAntarctica/Troll\tTroll\n\
AQ\t-7824+10654\tAntarctica/Vostok\tVostok\n\
AR\t-3436-05827\tAmerica/Argentina/Buenos_Aires\tBuenos Aires (BA, CF)\n\
AR\t-3124-06411\tAmerica/Argentina/Cordoba\tmost areas: CB, CC, CN, ER, FM, MN, SE, SF\n\
AR\t-2447-06525\tAmerica/Argentina/Salta\tSalta (SA, LP, NQ, RN)\n\
AR\t-2411-06518\tAmerica/Argentina/Jujuy\tJujuy (JY)\n\
AR\t-2649-06513\tAmerica/Argentina/Tucuman\tTucum\u{e1}n (TM)\n\
AR\t-2828-06547\tAmerica/Argentina/Catamarca\tCatamarca (CT), Chubut (CH)\n\
AR\t-2926-06651\tAmerica/Argentina/La_Rioja\tLa Rioja (LR)\n\
AR\t-3132-06831\tAmerica/Argentina/San_Juan\tSan Juan (SJ)\n\
AR\t-3253-06849\tAmerica/Argentina/Mendoza\tMendoza (MZ)\n\
AR\t-3319-06621\tAmerica/Argentina/San_Luis\tSan Luis (SL)\n\
AR\t-5138-06913\tAmerica/Argentina/Rio_Gallegos\tSanta Cruz (SC)\n\
AR\t-5448-06818\tAmerica/Argentina/Ushuaia\tTierra del Fuego (TF)\n\
AS,UM\t-1416-17042\tPacific/Pago_Pago\tMidway\n\
AT\t+4813+01620\tEurope/Vienna\n\
AU\t-3133+15905\tAustralia/Lord_Howe\tLord Howe Island\n\
AU\t-5430+15857\tAntarctica/Macquarie\tMacquarie Island\n\
AU\t-4253+14719\tAustralia/Hobart\tTasmania\n\
AU\t-3749+14458\tAustralia/Melbourne\tVictoria\n\
AU\t-3352+15113\tAustralia/Sydney\tNew South Wales (most areas)\n\
AU\t-3157+14127\tAustralia/Broken_Hill\tNew South Wales (Yancowinna)\n\
AU\t-2728+15302\tAustralia/Brisbane\tQueensland (most areas)\n\
AU\t-2016+14900\tAustralia/Lindeman\tQueensland (Whitsunday Islands)\n\
AU\t-3455+13835\tAustralia/Adelaide\tSouth Australia\n\
AU\t-1228+13050\tAustralia/Darwin\tNorthern Territory\n\
AU\t-3157+11551\tAustralia/Perth\tWestern Australia (most areas)\n\
AU\t-3143+12852\tAustralia/Eucla\tWestern Australia (Eucla)\n\
AZ\t+4023+04951\tAsia/Baku\n\
BB\t+1306-05937\tAmerica/Barbados\n\
BD\t+2343+09025\tAsia/Dhaka\n\
BE,LU,NL\t+5050+00420\tEurope/Brussels\n\
BG\t+4241+02319\tEurope/Sofia\n\
BM\t+3217-06446\tAtlantic/Bermuda\n\
BO\t-1630-06809\tAmerica/La_Paz\n\
BR\t-0351-03225\tAmerica/Noronha\tAtlantic islands\n\
BR\t-0127-04829\tAmerica/Belem\tPar\u{e1} (east), Amap\u{e1}\n\
BR\t-0343-03830\tAmerica/Fortaleza\tBrazil (northeast: MA, PI, CE, RN, PB)\n\
BR\t-0803-03454\tAmerica/Recife\tPernambuco\n\
BR\t-0712-04812\tAmerica/Araguaina\tTocantins\n\
BR\t-0940-03543\tAmerica/Maceio\tAlagoas, Sergipe\n\
BR\t-1259-03831\tAmerica/Bahia\tBahia\n\
BR\t-2332-04637\tAmerica/Sao_Paulo\tBrazil (southeast: GO, DF, MG, ES, RJ, SP, PR, SC, RS)\n\
BR\t-2027-05437\tAmerica/Campo_Grande\tMato Grosso do Sul\n\
BR\t-1535-05605\tAmerica/Cuiaba\tMato Grosso\n\
BR\t-0226-05452\tAmerica/Santarem\tPar\u{e1} (west)\n\
BR\t-0846-06354\tAmerica/Porto_Velho\tRond\u{f4}nia\n\
BR\t+0249-06040\tAmerica/Boa_Vista\tRoraima\n\
BR\t-0308-06001\tAmerica/Manaus\tAmazonas (east)\n\
BR\t-0640-06952\tAmerica/Eirunepe\tAmazonas (west)\n\
BR\t-0958-06748\tAmerica/Rio_Branco\tAcre\n\
BT\t+2728+08939\tAsia/Thimphu\n\
BY\t+5354+02734\tEurope/Minsk\n\
BZ\t+1730-08812\tAmerica/Belize\n\
CA\t+4734-05243\tAmerica/St_Johns\tNewfoundland, Labrador (SE)\n\
CA\t+4439-06336\tAmerica/Halifax\tAtlantic - NS (most areas), PE\n\
CA\t+4612-05957\tAmerica/Glace_Bay\tAtlantic - NS (Cape Breton)\n\
CA\t+4606-06447\tAmerica/Moncton\tAtlantic - New Brunswick\n\
CA\t+5320-06025\tAmerica/Goose_Bay\tAtlantic - Labrador (most areas)\n\
CA,BS\t+4339-07923\tAmerica/Toronto\tEastern - ON & QC (most areas)\n\
CA\t+6344-06828\tAmerica/Iqaluit\tEastern - NU (most areas)\n\
CA\t+4953-09709\tAmerica/Winnipeg\tCentral - ON (west), Manitoba\n\
CA\t+744144-0944945\tAmerica/Resolute\tCentral - NU (Resolute)\n\
CA\t+624900-0920459\tAmerica/Rankin_Inlet\tCentral - NU (central)\n\
CA\t+5024-10439\tAmerica/Regina\tCST - SK (most areas)\n\
CA\t+5017-10750\tAmerica/Swift_Current\tCST - SK (midwest)\n\
CA\t+5333-11328\tAmerica/Edmonton\tMountain - AB, BC(E), NT(E), SK(W)\n\
CA\t+690650-1050310\tAmerica/Cambridge_Bay\tMountain - NU (west)\n\
CA\t+682059-1334300\tAmerica/Inuvik\tMountain - NT (west)\n\
CA\t+5546-12014\tAmerica/Dawson_Creek\tMST - BC (Dawson Cr, Ft St John)\n\
CA\t+5848-12242\tAmerica/Fort_Nelson\tMST - BC (Ft Nelson)\n\
CA\t+6043-13503\tAmerica/Whitehorse\tMST - Yukon (east)\n\
CA\t+6404-13925\tAmerica/Dawson\tMST - Yukon (west)\n\
CA\t+4916-12307\tAmerica/Vancouver\tPacific - BC (most areas)\n\
CH,DE,LI\t+4723+00832\tEurope/Zurich\tB\u{fc}singen\n\
CI,BF,GH,GM,GN,IS,ML,MR,SH,SL,SN,TG\t+0519-00402\tAfrica/Abidjan\n\
CK\t-2114-15946\tPacific/Rarotonga\n\
CL\t-3327-07040\tAmerica/Santiago\tmost of Chile\n\
CL\t-4534-07204\tAmerica/Coyhaique\tAys\u{e9}n Region\n\
CL\t-5309-07055\tAmerica/Punta_Arenas\tMagallanes Region\n\
CL\t-2709-10926\tPacific/Easter\tEaster Island\n\
CN\t+3114+12128\tAsia/Shanghai\tBeijing Time\n\
CN\t+4348+08735\tAsia/Urumqi\tXinjiang Time\n\
CO\t+0436-07405\tAmerica/Bogota\n\
CR\t+0956-08405\tAmerica/Costa_Rica\n\
CU\t+2308-08222\tAmerica/Havana\n\
CV\t+1455-02331\tAtlantic/Cape_Verde\n\
CY\t+3510+03322\tAsia/Nicosia\tmost of Cyprus\n\
CY\t+3507+03357\tAsia/Famagusta\tNorthern Cyprus\n\
CZ,SK\t+5005+01426\tEurope/Prague\n\
DE,DK,NO,SE,SJ\t+5230+01322\tEurope/Berlin\tmost of Germany\n\
DO\t+1828-06954\tAmerica/Santo_Domingo\n\
DZ\t+3647+00303\tAfrica/Algiers\n\
EC\t-0210-07950\tAmerica/Guayaquil\tEcuador (mainland)\n\
EC\t-0054-08936\tPacific/Galapagos\tGal\u{e1}pagos Islands\n\
EE\t+5925+02445\tEurope/Tallinn\n\
EG\t+3003+03115\tAfrica/Cairo\n\
EH\t+2709-01312\tAfrica/El_Aaiun\n\
ES\t+4024-00341\tEurope/Madrid\tSpain (mainland)\n\
ES\t+3553-00519\tAfrica/Ceuta\tCeuta, Melilla\n\
ES\t+2806-01524\tAtlantic/Canary\tCanary Islands\n\
FI,AX\t+6010+02458\tEurope/Helsinki\n\
FJ\t-1808+17825\tPacific/Fiji\n\
FK\t-5142-05751\tAtlantic/Stanley\n\
FM\t+0519+16259\tPacific/Kosrae\tKosrae\n\
FO\t+6201-00646\tAtlantic/Faroe\n\
FR,MC\t+4852+00220\tEurope/Paris\n\
GB,GG,IM,JE\t+513030-0000731\tEurope/London\n\
GE\t+4143+04449\tAsia/Tbilisi\n\
GF\t+0456-05220\tAmerica/Cayenne\n\
GI\t+3608-00521\tEurope/Gibraltar\n\
GL\t+6411-05144\tAmerica/Nuuk\tmost of Greenland\n\
GL\t+7646-01840\tAmerica/Danmarkshavn\tNational Park (east coast)\n\
GL\t+7029-02158\tAmerica/Scoresbysund\tScoresbysund/Ittoqqortoormiit\n\
GL\t+7634-06847\tAmerica/Thule\tThule/Pituffik\n\
GR\t+3758+02343\tEurope/Athens\n\
GS\t-5416-03632\tAtlantic/South_Georgia\n\
GT\t+1438-09031\tAmerica/Guatemala\n\
GU,MP\t+1328+14445\tPacific/Guam\n\
GW\t+1151-01535\tAfrica/Bissau\n\
GY\t+0648-05810\tAmerica/Guyana\n\
HK\t+2217+11409\tAsia/Hong_Kong\n\
HN\t+1406-08713\tAmerica/Tegucigalpa\n\
HT\t+1832-07220\tAmerica/Port-au-Prince\n\
HU\t+4730+01905\tEurope/Budapest\n\
ID\t-0610+10648\tAsia/Jakarta\tJava, Sumatra\n\
ID\t-0002+10920\tAsia/Pontianak\tBorneo (west, central)\n\
ID\t-0507+11924\tAsia/Makassar\tBorneo (east, south), Sulawesi/Celebes, Bali, Nusa Tengarra, Timor (west)\n\
ID\t-0232+14042\tAsia/Jayapura\tNew Guinea (West Papua / Irian Jaya), Malukus/Moluccas\n\
IE\t+5320-00615\tEurope/Dublin\n\
IL\t+314650+0351326\tAsia/Jerusalem\n\
IN\t+2232+08822\tAsia/Kolkata\n\
IO\t-0720+07225\tIndian/Chagos\n\
IQ\t+3321+04425\tAsia/Baghdad\n\
IR\t+3540+05126\tAsia/Tehran\n\
IT,SM,VA\t+4154+01229\tEurope/Rome\n\
JM\t+175805-0764736\tAmerica/Jamaica\n\
JO\t+3157+03556\tAsia/Amman\n\
JP,AU\t+353916+1394441\tAsia/Tokyo\tEyre Bird Observatory\n\
KE,DJ,ER,ET,KM,MG,SO,TZ,UG,YT\t-0117+03649\tAfrica/Nairobi\n\
KG\t+4254+07436\tAsia/Bishkek\n\
KI,MH,TV,UM,WF\t+0125+17300\tPacific/Tarawa\tGilberts, Marshalls, Wake\n\
KI\t-0247-17143\tPacific/Kanton\tPhoenix Islands\n\
KI\t+0152-15720\tPacific/Kiritimati\tLine Islands\n\
KP\t+3901+12545\tAsia/Pyongyang\n\
KR\t+3733+12658\tAsia/Seoul\n\
KZ\t+4315+07657\tAsia/Almaty\tmost of Kazakhstan\n\
KZ\t+4448+06528\tAsia/Qyzylorda\tQyzylorda/Kyzylorda/Kzyl-Orda\n\
KZ\t+5312+06337\tAsia/Qostanay\tQostanay/Kostanay/Kustanay\n\
KZ\t+5017+05710\tAsia/Aqtobe\tAqt\u{f6}be/Aktobe\n\
KZ\t+4431+05016\tAsia/Aqtau\tMangghysta\u{16b}/Mankistau\n\
KZ\t+4707+05156\tAsia/Atyrau\tAtyra\u{16b}/Atirau/Gur'yev\n\
KZ\t+5113+05121\tAsia/Oral\tWest Kazakhstan\n\
LB\t+3353+03530\tAsia/Beirut\n\
LK\t+0656+07951\tAsia/Colombo\n\
LR\t+0618-01047\tAfrica/Monrovia\n\
LT\t+5441+02519\tEurope/Vilnius\n\
LV\t+5657+02406\tEurope/Riga\n\
LY\t+3254+01311\tAfrica/Tripoli\n\
MA\t+3339-00735\tAfrica/Casablanca\n\
MD\t+4700+02850\tEurope/Chisinau\n\
MH\t+0905+16720\tPacific/Kwajalein\tKwajalein\n\
MM,CC\t+1647+09610\tAsia/Yangon\n\
MN\t+4755+10653\tAsia/Ulaanbaatar\tmost of Mongolia\n\
MN\t+4801+09139\tAsia/Hovd\tBayan-\u{d6}lgii, Hovd, Uvs\n\
MO\t+221150+1133230\tAsia/Macau\n\
MQ\t+1436-06105\tAmerica/Martinique\n\
MT\t+3554+01431\tEurope/Malta\n\
MU\t-2010+05730\tIndian/Mauritius\n\
MV,TF\t+0410+07330\tIndian/Maldives\tKerguelen, St Paul I, Amsterdam I\n\
MX\t+1924-09909\tAmerica/Mexico_City\tCentral Mexico\n\
MX\t+2105-08646\tAmerica/Cancun\tQuintana Roo\n\
MX\t+2058-08937\tAmerica/Merida\tCampeche, Yucat\u{e1}n\n\
MX\t+2540-10019\tAmerica/Monterrey\tDurango; Coahuila, Nuevo Le\u{f3}n, Tamaulipas (most areas)\n\
MX\t+2550-09730\tAmerica/Matamoros\tCoahuila, Nuevo Le\u{f3}n, Tamaulipas (US border)\n\
MX\t+2838-10605\tAmerica/Chihuahua\tChihuahua (most areas)\n\
MX\t+3144-10629\tAmerica/Ciudad_Juarez\tChihuahua (US border - west)\n\
MX\t+2934-10425\tAmerica/Ojinaga\tChihuahua (US border - east)\n\
MX\t+2313-10625\tAmerica/Mazatlan\tBaja California Sur, Nayarit (most areas), Sinaloa\n\
MX\t+2048-10515\tAmerica/Bahia_Banderas\tBah\u{ed}a de Banderas\n\
MX\t+2904-11058\tAmerica/Hermosillo\tSonora\n\
MX\t+3232-11701\tAmerica/Tijuana\tBaja California\n\
MY,BN\t+0133+11020\tAsia/Kuching\tSabah, Sarawak\n\
MZ,BI,BW,CD,MW,RW,ZM,ZW\t-2558+03235\tAfrica/Maputo\tCentral Africa Time\n\
NA\t-2234+01706\tAfrica/Windhoek\n\
NC\t-2216+16627\tPacific/Noumea\n\
NF\t-2903+16758\tPacific/Norfolk\n\
NG,AO,BJ,CD,CF,CG,CM,GA,GQ,NE\t+0627+00324\tAfrica/Lagos\tWest Africa Time\n\
NI\t+1209-08617\tAmerica/Managua\n\
NP\t+2743+08519\tAsia/Kathmandu\n\
NR\t-0031+16655\tPacific/Nauru\n\
NU\t-1901-16955\tPacific/Niue\n\
NZ,AQ\t-3652+17446\tPacific/Auckland\tNew Zealand time\n\
NZ\t-4357-17633\tPacific/Chatham\tChatham Islands\n\
PA,CA,KY\t+0858-07932\tAmerica/Panama\tEST - ON (Atikokan), NU (Coral H)\n\
PE\t-1203-07703\tAmerica/Lima\n\
PF\t-1732-14934\tPacific/Tahiti\tSociety Islands\n\
PF\t-0900-13930\tPacific/Marquesas\tMarquesas Islands\n\
PF\t-2308-13457\tPacific/Gambier\tGambier Islands\n\
PG,AQ,FM\t-0930+14710\tPacific/Port_Moresby\tPapua New Guinea (most areas), Chuuk, Yap, Dumont d'Urville\n\
PG\t-0613+15534\tPacific/Bougainville\tBougainville\n\
PH\t+143512+1205804\tAsia/Manila\n\
PK\t+2452+06703\tAsia/Karachi\n\
PL\t+5215+02100\tEurope/Warsaw\n\
PM\t+4703-05620\tAmerica/Miquelon\n\
PN\t-2504-13005\tPacific/Pitcairn\n\
PR,AG,CA,AI,AW,BL,BQ,CW,DM,GD,GP,KN,LC,MF,MS,SX,TT,VC,VG,VI\t+182806-0660622\tAmerica/Puerto_Rico\tAST - QC (Lower North Shore)\n\
PS\t+3130+03428\tAsia/Gaza\tGaza Strip\n\
PS\t+313200+0350542\tAsia/Hebron\tWest Bank\n\
PT\t+3843-00908\tEurope/Lisbon\tPortugal (mainland)\n\
PT\t+3238-01654\tAtlantic/Madeira\tMadeira Islands\n\
PT\t+3744-02540\tAtlantic/Azores\tAzores\n\
PW\t+0720+13429\tPacific/Palau\n\
PY\t-2516-05740\tAmerica/Asuncion\n\
QA,BH\t+2517+05132\tAsia/Qatar\n\
RO\t+4426+02606\tEurope/Bucharest\n\
RS,BA,HR,ME,MK,SI\t+4450+02030\tEurope/Belgrade\n\
RU\t+5443+02030\tEurope/Kaliningrad\tMSK-01 - Kaliningrad\n\
RU\t+554521+0373704\tEurope/Moscow\tMSK+00 - Moscow area\n\
# Mention RU and UA alphabetically.  See \"territorial claims\" above.\n\
RU,UA\t+4457+03406\tEurope/Simferopol\tCrimea\n\
RU\t+5836+04939\tEurope/Kirov\tMSK+00 - Kirov\n\
RU\t+4844+04425\tEurope/Volgograd\tMSK+00 - Volgograd\n\
RU\t+4621+04803\tEurope/Astrakhan\tMSK+01 - Astrakhan\n\
RU\t+5134+04602\tEurope/Saratov\tMSK+01 - Saratov\n\
RU\t+5420+04824\tEurope/Ulyanovsk\tMSK+01 - Ulyanovsk\n\
RU\t+5312+05009\tEurope/Samara\tMSK+01 - Samara, Udmurtia\n\
RU\t+5651+06036\tAsia/Yekaterinburg\tMSK+02 - Urals\n\
RU\t+5500+07324\tAsia/Omsk\tMSK+03 - Omsk\n\
RU\t+5502+08255\tAsia/Novosibirsk\tMSK+04 - Novosibirsk\n\
RU\t+5322+08345\tAsia/Barnaul\tMSK+04 - Altai\n\
RU\t+5630+08458\tAsia/Tomsk\tMSK+04 - Tomsk\n\
RU\t+5345+08707\tAsia/Novokuznetsk\tMSK+04 - Kemerovo\n\
RU\t+5601+09250\tAsia/Krasnoyarsk\tMSK+04 - Krasnoyarsk area\n\
RU\t+5216+10420\tAsia/Irkutsk\tMSK+05 - Irkutsk, Buryatia\n\
RU\t+5203+11328\tAsia/Chita\tMSK+06 - Zabaykalsky\n\
RU\t+6200+12940\tAsia/Yakutsk\tMSK+06 - Lena River\n\
RU\t+623923+1353314\tAsia/Khandyga\tMSK+06 - Tomponsky, Ust-Maysky\n\
RU\t+4310+13156\tAsia/Vladivostok\tMSK+07 - Amur River\n\
RU\t+643337+1431336\tAsia/Ust-Nera\tMSK+07 - Oymyakonsky\n\
RU\t+5934+15048\tAsia/Magadan\tMSK+08 - Magadan\n\
RU\t+4658+14242\tAsia/Sakhalin\tMSK+08 - Sakhalin Island\n\
RU\t+6728+15343\tAsia/Srednekolymsk\tMSK+08 - Sakha (E), N Kuril Is\n\
RU\t+5301+15839\tAsia/Kamchatka\tMSK+09 - Kamchatka\n\
RU\t+6445+17729\tAsia/Anadyr\tMSK+09 - Bering Sea\n\
SA,AQ,KW,YE\t+2438+04643\tAsia/Riyadh\tSyowa\n\
SB,FM\t-0932+16012\tPacific/Guadalcanal\tPohnpei\n\
SD\t+1536+03232\tAfrica/Khartoum\n\
SG,AQ,MY\t+0117+10351\tAsia/Singapore\tpeninsular Malaysia, Concordia\n\
SR\t+0550-05510\tAmerica/Paramaribo\n\
SS\t+0451+03137\tAfrica/Juba\n\
ST\t+0020+00644\tAfrica/Sao_Tome\n\
SV\t+1342-08912\tAmerica/El_Salvador\n\
SY\t+3330+03618\tAsia/Damascus\n\
TC\t+2128-07108\tAmerica/Grand_Turk\n\
TD\t+1207+01503\tAfrica/Ndjamena\n\
TH,CX,KH,LA,VN\t+1345+10031\tAsia/Bangkok\tnorth Vietnam\n\
TJ\t+3835+06848\tAsia/Dushanbe\n\
TK\t-0922-17114\tPacific/Fakaofo\n\
TL\t-0833+12535\tAsia/Dili\n\
TM\t+3757+05823\tAsia/Ashgabat\n\
TN\t+3648+01011\tAfrica/Tunis\n\
TO\t-210800-1751200\tPacific/Tongatapu\n\
TR\t+4101+02858\tEurope/Istanbul\n\
TW\t+2503+12130\tAsia/Taipei\n\
UA\t+5026+03031\tEurope/Kyiv\tmost of Ukraine\n\
US\t+404251-0740023\tAmerica/New_York\tEastern (most areas)\n\
US\t+421953-0830245\tAmerica/Detroit\tEastern - MI (most areas)\n\
US\t+381515-0854534\tAmerica/Kentucky/Louisville\tEastern - KY (Louisville area)\n\
US\t+364947-0845057\tAmerica/Kentucky/Monticello\tEastern - KY (Wayne)\n\
US\t+394606-0860929\tAmerica/Indiana/Indianapolis\tEastern - IN (most areas)\n\
US\t+384038-0873143\tAmerica/Indiana/Vincennes\tEastern - IN (Da, Du, K, Mn)\n\
US\t+410305-0863611\tAmerica/Indiana/Winamac\tEastern - IN (Pulaski)\n\
US\t+382232-0862041\tAmerica/Indiana/Marengo\tEastern - IN (Crawford)\n\
US\t+382931-0871643\tAmerica/Indiana/Petersburg\tEastern - IN (Pike)\n\
US\t+384452-0850402\tAmerica/Indiana/Vevay\tEastern - IN (Switzerland)\n\
US\t+415100-0873900\tAmerica/Chicago\tCentral (most areas)\n\
US\t+375711-0864541\tAmerica/Indiana/Tell_City\tCentral - IN (Perry)\n\
US\t+411745-0863730\tAmerica/Indiana/Knox\tCentral - IN (Starke)\n\
US\t+450628-0873651\tAmerica/Menominee\tCentral - MI (Wisconsin border)\n\
US\t+470659-1011757\tAmerica/North_Dakota/Center\tCentral - ND (Oliver)\n\
US\t+465042-1012439\tAmerica/North_Dakota/New_Salem\tCentral - ND (Morton rural)\n\
US\t+471551-1014640\tAmerica/North_Dakota/Beulah\tCentral - ND (Mercer)\n\
US\t+394421-1045903\tAmerica/Denver\tMountain (most areas)\n\
US\t+433649-1161209\tAmerica/Boise\tMountain - ID (south), OR (east)\n\
US,CA\t+332654-1120424\tAmerica/Phoenix\tMST - AZ (most areas), Creston BC\n\
US\t+340308-1181434\tAmerica/Los_Angeles\tPacific\n\
US\t+611305-1495401\tAmerica/Anchorage\tAlaska (most areas)\n\
US\t+581807-1342511\tAmerica/Juneau\tAlaska - Juneau area\n\
US\t+571035-1351807\tAmerica/Sitka\tAlaska - Sitka area\n\
US\t+550737-1313435\tAmerica/Metlakatla\tAlaska - Annette Island\n\
US\t+593249-1394338\tAmerica/Yakutat\tAlaska - Yakutat\n\
US\t+643004-1652423\tAmerica/Nome\tAlaska (west)\n\
US\t+515248-1763929\tAmerica/Adak\tAlaska - western Aleutians\n\
US\t+211825-1575130\tPacific/Honolulu\tHawaii\n\
UY\t-345433-0561245\tAmerica/Montevideo\n\
UZ\t+3940+06648\tAsia/Samarkand\tUzbekistan (west)\n\
UZ\t+4120+06918\tAsia/Tashkent\tUzbekistan (east)\n\
VE\t+1030-06656\tAmerica/Caracas\n\
VN\t+1045+10640\tAsia/Ho_Chi_Minh\tsouth Vietnam\n\
VU\t-1740+16825\tPacific/Efate\n\
WS\t-1350-17144\tPacific/Apia\n\
ZA,LS,SZ\t-2615+02800\tAfrica/Johannesburg\n\
#\n\
# The next section contains experimental tab-separated comments for\n\
# use by user agents like tzselect that identify continents and oceans.\n\
#\n\
# For example, the comment \"#@AQ<tab>Antarctica/\" means the country code\n\
# AQ is in the continent Antarctica regardless of the Zone name,\n\
# so Pacific/Auckland should be listed under Antarctica as well as\n\
# under the Pacific because its line's country codes include AQ.\n\
#\n\
# If more than one country code is affected each is listed separated\n\
# by commas, e.g., #@IS,SH<tab>Atlantic/\".  If a country code is in\n\
# more than one continent or ocean, each is listed separated by\n\
# commas, e.g., the second column of \"#@CY,TR<tab>Asia/,Europe/\".\n\
#\n\
# These experimental comments are present only for country codes where\n\
# the continent or ocean is not already obvious from the Zone name.\n\
# For example, there is no such comment for RU since it already\n\
# corresponds to Zone names starting with both \"Europe/\" and \"Asia/\".\n\
#\n\
#@AQ\tAntarctica/\n\
#@IS,SH\tAtlantic/\n\
#@CY,TR\tAsia/,Europe/\n\
#@SJ\tArctic/\n\
#@CC,CX,KM,MG,YT\tIndian/\n\
";

} // verus!
