//! Static tables for FastCDC boundary detection: the 256-entry gear table
//! and the zero-padded boundary masks.
//!
//! The gear values are the fixed constants of the FastCDC reference
//! implementation; changing any entry changes every chunk boundary. The
//! boundary predicate is `(hash & mask_at(k)) == 0`, where `k` is derived
//! from the target chunk size.

use vstd::prelude::*;

verus! {

/// The 256 base gear constants. `gear_shifted_seq` holds each value shifted
/// left by one, which is what the rolling hash adds per byte.
pub const GEAR_TABLE: [u64; 256] = [
    0x4d65_8221_07fc_fd52, 0x7862_9a0f_5f3f_164f, 0xd510_4dc7_6695_721d, 0xb807_04bb_7b4d_7c03,
    0x365a_8581_49c6_e2d1, 0x57e9_d186_0d1d_68d8, 0x8866_cb39_7916_001e, 0x9408_d2ac_22c4_d294,
    0x0c69_7f48_3929_07a0, 0xa684_47a4_189d_eb99, 0x41f2_7cc6_f387_5d04, 0x6825_5aaf_95e9_4627,
    0x9b6c_ffa2_ba51_7936, 0x30b9_5ff1_83c4_71d4, 0xa8b6_2158_7cb3_ad0b, 0x3c04_951a_a426_55d9,
    0xa43a_768b_7c4e_0b68, 0xa584_5c95_d449_1d1b, 0x56ec_3f25_2563_2186, 0x9bf9_8be2_a9d7_8d73,
    0x1a02_070f_169c_1121, 0x2e31_08da_bb15_8644, 0xc90b_d268_b68e_6a3f, 0x6e66_1e92_7598_05f5,
    0xa584_c47f_2cdf_5b8a, 0x2606_cd2b_57d2_9245, 0x6054_502f_c5d6_d268, 0x1a71_4cf8_6b83_d0e2,
    0xeec3_4c36_7674_cb74, 0xd92e_17f7_b068_d9db, 0x430c_8b35_bb94_57d8, 0x039f_6f78_a15d_523b,
    0x9444_19db_7942_09ff, 0x4dba_7b0f_9da1_d7eb, 0xfcd4_b7a5_5a25_e0cb, 0x8a2b_894c_f840_ec4b,
    0x4c22_b029_36d4_ff9b, 0x8791_43f7_f4a5_ee3b, 0x5894_42fd_5ad1_45f4, 0x2698_4b92_f674_0304,
    0x962d_968d_3f71_f8cb, 0x4542_c292_9101_8d7c, 0xc5a6_e3ca_fcca_e224, 0xa3a6_2343_b186_b51f,
    0xb629_d9f1_7d9e_8fbc, 0xc3ea_3b93_93f9_3f33, 0x2074_03de_f63a_5b6f, 0x241b_3ae4_1947_6c36,
    0x64f1_017f_bc89_7d06, 0x2e4f_a459_1698_73f5, 0xf0b5_a315_724c_7af1, 0xa607_c649_581e_eb39,
    0x727a_71f5_2257_bb7d, 0x0c79_6497_6f26_9a28, 0x7d0b_9ca8_be8e_9981, 0x8982_5e11_7039_374b,
    0x9c73_fac8_2541_6fed, 0xd72d_92fa_ded7_e411, 0x1ee9_f767_6678_e7aa, 0xa7df_f7ab_244f_cd36,
    0x7767_8303_56aa_6b86, 0x5ef4_e81e_de45_61ad, 0x6688_f8bd_3e99_b0a8, 0x5d78_399c_bed8_0a3a,
    0x176a_156a_e583_48b0, 0xb6d4_67a4_af63_e58d, 0xf2d0_a1e9_406a_ec9d, 0x5761_3082_c233_f007,
    0xfd4d_8e9f_a5ea_d0bd, 0x760b_0d22_0501_43a6, 0x0ba0_8e4b_738b_6829, 0xbf1f_46e8_3699_caf3,
    0x76a7_80ea_967c_d710, 0x7a3b_a6f6_06f6_65a6, 0xac89_c167_25fd_3d7f, 0xd86d_6826_0fd6_e479,
    0x5aff_01c9_26fb_f29b, 0x4829_ee07_16de_4c35, 0xd322_787c_2bf3_394b, 0x46a0_3cb4_4af8_64ba,
    0xe0be_d31f_1cb9_e6c6, 0xb3af_d379_4143_9089, 0x90b9_2d01_69a3_9144, 0xfe34_179d_c34f_182d,
    0xf2bb_5389_4216_57ff, 0x293a_0c2b_f9fc_6568, 0x5c4e_91e9_8b02_c917, 0x5280_4793_6c9c_64b7,
    0x0af2_5603_83d1_7909, 0xd5b4_a4b2_ea3d_4ca5, 0xcfb5_8fbe_af63_5d47, 0x2f52_1858_7fc7_8769,
    0x9e50_3382_be14_186f, 0x4484_1df3_3539_b1ea, 0x97f7_ae24_e917_4548, 0x1e92_5507_c051_e18a,
    0x5065_8558_07b7_3658, 0x1039_70a3_29ec_300c, 0xa402_a18d_a250_bf34, 0x3485_757e_a7ed_5d97,
    0xb7ab_3641_fe3d_ea79, 0xd003_1d27_b8b3_52f7, 0xc66b_36db_c9b3_44e9, 0x4fd2_69fd_8e5f_0475,
    0x5d55_cb47_1941_e52a, 0xea4e_ef7a_2694_763d, 0x8010_d632_6b40_eabc, 0xde37_7ef5_8485_d68b,
    0xb332_aafe_336e_acca, 0x3fba_2470_4399_a363, 0xcd4f_278a_6714_9b9c, 0xb46e_5f29_ae10_a901,
    0x83cc_44bf_5a5f_fefb, 0x803e_6306_563b_26de, 0x805d_2928_6f00_f02b, 0x7539_a201_9f06_397d,
    0xcb7f_afc3_5458_36c4, 0xc79a_2bf9_31d6_416b, 0xe85f_3257_12f4_128d, 0xf062_b076_752f_33ff,
    0xbaae_3e3e_4a30_5605, 0x4cd2_39ea_0c8d_c214, 0x835c_a80d_7252_1a90, 0xec44_3faf_8eb3_e4a1,
    0x1ff5_f262_83ef_c6c6, 0x5225_fcd6_090e_c04f, 0x1fac_fc5d_c154_0864, 0x963a_5ace_ec2c_8aaa,
    0xcbdb_185b_70ab_53ba, 0xe83e_14a5_38d3_b494, 0x58cf_b024_878d_4063, 0x03e1_9bf7_a317_ae3f,
    0xc504_d635_3cb6_2f07, 0x7ce2_e98e_f360_412c, 0x6019_00fb_4ffb_f3a9, 0xa5a1_ffb5_22d5_54b4,
    0x6067_96b8_3f19_0476, 0x1352_ca32_0796_a710, 0x2d89_c820_f5c3_53cf, 0x6a7c_b5cf_04f5_9bb7,
    0x9dac_9b58_2d23_0176, 0xd05c_e263_e2d6_a9ce, 0x3fcb_626c_3f1d_7427, 0x0b7f_bfbc_afd9_15bb,
    0x8339_8e40_b01a_a47d, 0x3234_23cf_cde2_c269, 0xcb70_e7ac_7417_bf38, 0x76fd_839a_1e09_4f9a,
    0xc93a_23eb_55ec_e0ea, 0x4b56_783c_cb94_539b, 0xb4b4_a3c8_13d3_46b5, 0x46ba_f447_54e0_c0c1,
    0x3eec_fdbc_6db3_0e37, 0x7a9e_3bdc_dc02_b390, 0xe60a_edf1_a6e2_22f5, 0x0dbe_aa0f_e2f8_c1fe,
    0xe43a_7d71_2e16_6bdf, 0x3256_0c7a_6758_8a74, 0x90b1_66a2_2189_8f34, 0x1852_fe62_4c33_0f1d,
    0x5eb2_9c77_19af_53ba, 0x53b7_a0ff_7065_8b94, 0x8c97_d70a_133c_9673, 0x429b_d23a_4efe_eadd,
    0x0cc3_f10e_0f21_2551, 0x136f_9ac7_070f_0914, 0x89c0_9a3e_6f24_1c57, 0x2858_bd10_f13e_41b7,
    0x146f_70ff_3be7_0cb0, 0x91a3_9040_f4b6_f47f, 0x294b_4e8e_20f3_1127, 0xc500_64ce_6551_cb89,
    0xc911_aa87_289c_bd2c, 0xc1a2_d528_8946_f23d, 0xd793_0cf8_40a7_9c3b, 0xd396_d24a_03c6_d982,
    0xc322_cee1_0365_790c, 0x53bf_1faf_0cf5_2517, 0x5bb1_f57b_0bb1_31e8, 0xd17d_8ebf_3da5_475c,
    0x01a4_4786_139e_fcca, 0x83ed_64e9_bcd4_4eb4, 0x8c8c_4694_a54a_f747, 0xaf3f_0d6f_b73c_32ed,
    0x69c9_3fb0_9f6c_47ac, 0xac80_d58f_e8ba_8f22, 0x2c12_83b6_5404_3a66, 0xa062_4c58_3b0a_7f20,
    0x1bb5_5397_b492_6431, 0xc70a_4f5a_e17c_02d5, 0xb377_0eb5_8f0d_2558, 0x40d4_e552_014f_bff2,
    0x9597_4b9d_7f80_3594, 0x2a6a_4670_79b7_6fbe, 0xe9f9_8c40_33fe_2656, 0xd9a3_0874_792c_8ee8,
    0x876a_20af_6b41_292d, 0x7fe4_754a_fdff_9c32, 0xb4ad_5ac8_8209_3298, 0x8e4b_5ac0_5948_3870,
    0xe3ef_bff5_b2d5_a113, 0x0bca_82a4_2dd9_6e5a, 0x06d8_e96f_5b8e_56a9, 0x5b7b_2709_ebd9_dda9,
    0x2018_fa6e_04f9_ce92, 0xeca0_00e8_cb44_0950, 0xfca8_2947_a67e_52b1, 0x1b35_327a_49f6_d261,
    0x02c1_9e77_9241_7fc3, 0xf8fc_2454_1c3b_6bd9, 0x0be6_7230_b027_b7e0, 0xd2aa_ab03_1f76_5a41,
    0x27eb_dd8f_44c9_ab40, 0xb967_47c0_45d9_9121, 0xbe5d_db0e_fd7a_84af, 0x0a8e_b1ac_99b7_5788,
    0xd5fe_7f03_e3ab_ff4a, 0xb339_5eaf_a88a_a67f, 0xf33c_374d_736e_41cc, 0x7995_c5dc_9cbc_be5e,
    0xa8df_d8d3_7b3c_cebc, 0x3feb_dd25_e1b7_fa93, 0xb341_5dbd_315a_e6af, 0x8289_172b_9cce_d2e2,
    0xd290_a231_19ea_0f2f, 0xb6df_4331_a977_0722, 0x2b77_e806_84a6_bfdc, 0xf197_e134_88f0_3f07,
    0x1e3f_fa8a_a44a_03a4, 0x61eb_ca08_27a6_b885, 0x0493_9bb8_b580_c8ba, 0xdd21_4064_0181_53da,
    0xd01b_6a22_b648_e604, 0xc1ac_d9f5_5118_0278, 0x8945_fcdd_893a_310f, 0xdcb3_89ac_728f_5f4c,
    0x709e_c184_37f5_198b, 0xfd27_5a87_3cc0_ea9b, 0xec7a_e37a_e39d_02db, 0x6a85_7648_1388_3142,
    0x9fb9_5e8c_ca59_9392, 0xf4ea_42af_c12d_154e, 0x099a_d1bd_c176_163d, 0xeae4_ae6d_5c92_e2b8,
    0x508d_f0dc_f9f9_5ede, 0x6039_0908_b802_bdfc, 0xd0e5_7d0f_8a92_8585, 0x0c68_571d_dca6_e10b,
    0x81e5_dcfd_8879_53e8, 0x4abb_18c9_48b9_e962, 0x88cd_00c4_e533_e9a3, 0x7fc7_6fad_5e0c_e6e5,
    0xd318_9b25_1dba_77ae, 0x7e23_bc6f_c821_4b8a, 0xeada_ea47_53b4_28d7, 0xaa80_d056_4cf2_0a65,
];

/// Mask constants used at and above index 13, cycling in this order.
pub const MASK_A: u64 = 0x0000_0000_d903_0353;

/// Second mask of the cycle.
pub const MASK_B: u64 = 0x0000_0001_b207_06a7;

/// Third mask of the cycle.
pub const MASK_C: u64 = 0x0000_0000_3590_7035;

/// Fourth mask of the cycle.
pub const MASK_D: u64 = 0x0000_0006_b20e_e06a;

/// The boundary mask for index `k`: the low `k` bits for `k <= 12`, then the
/// four-constant cycle of distributed-bit masks for `k >= 13`.
pub open spec fn mask_at_spec(k: nat) -> u64 {
    if k <= 12 {
        (((1u64 << k) as u64) - 1) as u64
    } else if (k - 13) % 4 == 0 {
        MASK_A
    } else if (k - 13) % 4 == 1 {
        MASK_B
    } else if (k - 13) % 4 == 2 {
        MASK_C
    } else {
        MASK_D
    }
}

/// Returns the boundary mask for index `k`.
pub fn mask_at(k: usize) -> (r: u64)
    ensures
        r == mask_at_spec(k as nat),
{
    if k <= 12 {
        let one: u64 = 1;
        let shifted: u64 = one << (k as u64);
        proof {
            let kk = k as u64;
            assert((1u64 << kk) >= 1 && (1u64 << kk) == (1u64 << (k as nat))) by (bit_vector)
                requires
                    kk == k && kk <= 12,
            ;
        }
        shifted - 1
    } else {
        let rem: usize = (k - 13) % 4;
        if rem == 0 {
            MASK_A
        } else if rem == 1 {
            MASK_B
        } else if rem == 2 {
            MASK_C
        } else {
            MASK_D
        }
    }
}

/// The pre-shifted gear table: entry `i` is `GEAR_TABLE[i] << 1`, truncated
/// to 64 bits. Pre-shifting bakes the `(hash << 1)` of the gear update into
/// the table lookup.
#[verifier::opaque]
pub open spec fn gear_shifted_seq() -> Seq<u64> {
    Seq::new(256, |i: int| (GEAR_TABLE[i] << 1) as u64)
}

/// Builds the pre-shifted gear table.
pub fn gear_table_shifted() -> (v: Vec<u64>)
    ensures
        v@ == gear_shifted_seq(),
        v@.len() == 256,
{
    let mut v: Vec<u64> = Vec::with_capacity(256);
    let mut i: usize = 0;
    while i < 256
        invariant
            i <= 256,
            v@.len() == i,
            forall|j: int| 0 <= j < i ==> v@[j] == gear_shifted_seq()[j],
        decreases 256 - i,
    {
        proof {
            reveal(gear_shifted_seq);
        }
        v.push(GEAR_TABLE[i] << 1u64);
        i += 1;
    }
    proof {
        reveal(gear_shifted_seq);
        assert(v@ =~= gear_shifted_seq());
    }
    v
}

} // verus!
