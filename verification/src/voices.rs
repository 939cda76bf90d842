//! The voices that lip sync speaks with.
use vstd::prelude::*;
use crate::text;

verus! {

/// The voice ids that lip sync accepts, in the order the service lists them.
pub open spec fn voice_ids() -> Seq<Seq<char>> {
    seq![
        "male-qn-qingse"@,
        "male-qn-jingying"@,
        "male-qn-badao"@,
        "male-qn-daxuesheng"@,
        "female-shaonv"@,
        "female-yujie"@,
        "female-chengshu"@,
        "female-tianmei"@,
        "male-qn-qingse-jingpin"@,
        "male-qn-jingying-jingpin"@,
        "male-qn-badao-jingpin"@,
        "male-qn-daxuesheng-jingpin"@,
        "female-shaonv-jingpin"@,
        "female-yujie-jingpin"@,
        "female-chengshu-jingpin"@,
        "female-tianmei-jingpin"@,
        "clever_boy"@,
        "cute_boy"@,
        "lovely_girl"@,
        "cartoon_pig"@,
        "bingjiao_didi"@,
        "junlang_nanyou"@,
        "chunzhen_xuedi"@,
        "lengdan_xiongzhang"@,
        "badao_shaoye"@,
        "tianxin_xiaoling"@,
        "qiaopi_mengmei"@,
        "wumei_yujie"@,
        "diadia_xuemei"@,
        "danya_xuejie"@,
        "Chinese (Mandarin)_Reliable_Executive"@,
        "Chinese (Mandarin)_News_Anchor"@,
        "Chinese (Mandarin)_Mature_Woman"@,
        "Chinese (Mandarin)_Unrestrained_Young_Man"@,
        "Arrogant_Miss"@,
        "Robot_Armor"@,
        "Chinese (Mandarin)_Kind-hearted_Antie"@,
        "Chinese (Mandarin)_HK_Flight_Attendant"@,
        "Chinese (Mandarin)_Humorous_Elder"@,
        "Chinese (Mandarin)_Gentleman"@,
        "Chinese (Mandarin)_Warm_Bestie"@,
        "Chinese (Mandarin)_Male_Announcer"@,
        "Chinese (Mandarin)_Sweet_Lady"@,
        "Chinese (Mandarin)_Southern_Young_Man"@,
        "Chinese (Mandarin)_Wise_Women"@,
        "Chinese (Mandarin)_Gentle_Youth"@,
        "Chinese (Mandarin)_Warm_Girl"@,
        "Chinese (Mandarin)_Kind-hearted_Elder"@,
        "Chinese (Mandarin)_Cute_Spirit"@,
        "Chinese (Mandarin)_Radio_Host"@,
        "Chinese (Mandarin)_Lyrical_Voice"@,
        "Chinese (Mandarin)_Straightforward_Boy"@,
        "Chinese (Mandarin)_Sincere_Adult"@,
        "Chinese (Mandarin)_Gentle_Senior"@,
        "Chinese (Mandarin)_Stubborn_Friend"@,
        "Chinese (Mandarin)_Crisp_Girl"@,
        "Chinese (Mandarin)_Pure-hearted_Boy"@,
        "Chinese (Mandarin)_Soft_Girl"@,
        "Cantonese_ProfessionalHost（F)"@,
        "Cantonese_GentleLady"@,
        "Cantonese_ProfessionalHost（M)"@,
        "Cantonese_PlayfulMan"@,
        "Cantonese_CuteGirl"@,
        "Cantonese_KindWoman"@,
        "Grinch"@,
        "Rudolph"@,
        "Arnold"@,
        "Charming_Santa"@,
        "Charming_Lady"@,
        "Sweet_Girl"@,
        "Cute_Elf"@,
        "Attractive_Girl"@,
        "Serene_Woman"@,
        "English_Trustworthy_Man"@,
        "English_Graceful_Lady"@,
        "English_Aussie_Bloke"@,
        "English_Whispering_girl"@,
        "English_Diligent_Man"@,
        "English_Gentle-voiced_man"@,
    ]
}

/// The voice ids that lip sync accepts.
pub fn all_voice_ids() -> (v: Vec<&'static str>)
    ensures
        text::views(v@) == voice_ids(),
{
    let v = vec![
        "male-qn-qingse",
        "male-qn-jingying",
        "male-qn-badao",
        "male-qn-daxuesheng",
        "female-shaonv",
        "female-yujie",
        "female-chengshu",
        "female-tianmei",
        "male-qn-qingse-jingpin",
        "male-qn-jingying-jingpin",
        "male-qn-badao-jingpin",
        "male-qn-daxuesheng-jingpin",
        "female-shaonv-jingpin",
        "female-yujie-jingpin",
        "female-chengshu-jingpin",
        "female-tianmei-jingpin",
        "clever_boy",
        "cute_boy",
        "lovely_girl",
        "cartoon_pig",
        "bingjiao_didi",
        "junlang_nanyou",
        "chunzhen_xuedi",
        "lengdan_xiongzhang",
        "badao_shaoye",
        "tianxin_xiaoling",
        "qiaopi_mengmei",
        "wumei_yujie",
        "diadia_xuemei",
        "danya_xuejie",
        "Chinese (Mandarin)_Reliable_Executive",
        "Chinese (Mandarin)_News_Anchor",
        "Chinese (Mandarin)_Mature_Woman",
        "Chinese (Mandarin)_Unrestrained_Young_Man",
        "Arrogant_Miss",
        "Robot_Armor",
        "Chinese (Mandarin)_Kind-hearted_Antie",
        "Chinese (Mandarin)_HK_Flight_Attendant",
        "Chinese (Mandarin)_Humorous_Elder",
        "Chinese (Mandarin)_Gentleman",
        "Chinese (Mandarin)_Warm_Bestie",
        "Chinese (Mandarin)_Male_Announcer",
        "Chinese (Mandarin)_Sweet_Lady",
        "Chinese (Mandarin)_Southern_Young_Man",
        "Chinese (Mandarin)_Wise_Women",
        "Chinese (Mandarin)_Gentle_Youth",
        "Chinese (Mandarin)_Warm_Girl",
        "Chinese (Mandarin)_Kind-hearted_Elder",
        "Chinese (Mandarin)_Cute_Spirit",
        "Chinese (Mandarin)_Radio_Host",
        "Chinese (Mandarin)_Lyrical_Voice",
        "Chinese (Mandarin)_Straightforward_Boy",
        "Chinese (Mandarin)_Sincere_Adult",
        "Chinese (Mandarin)_Gentle_Senior",
        "Chinese (Mandarin)_Stubborn_Friend",
        "Chinese (Mandarin)_Crisp_Girl",
        "Chinese (Mandarin)_Pure-hearted_Boy",
        "Chinese (Mandarin)_Soft_Girl",
        "Cantonese_ProfessionalHost（F)",
        "Cantonese_GentleLady",
        "Cantonese_ProfessionalHost（M)",
        "Cantonese_PlayfulMan",
        "Cantonese_CuteGirl",
        "Cantonese_KindWoman",
        "Grinch",
        "Rudolph",
        "Arnold",
        "Charming_Santa",
        "Charming_Lady",
        "Sweet_Girl",
        "Cute_Elf",
        "Attractive_Girl",
        "Serene_Woman",
        "English_Trustworthy_Man",
        "English_Graceful_Lady",
        "English_Aussie_Bloke",
        "English_Whispering_girl",
        "English_Diligent_Man",
        "English_Gentle-voiced_man",
    ];
    assert(text::views(v@) =~= voice_ids());
    v
}

} // verus!
