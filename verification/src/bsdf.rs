//! Materials.
use crate::dict::{dict_get, dict_insert, distinct_keys, lemma_insert_keeps_distinct, Dict};
use crate::emitter::option_view;
use crate::events::{
    attribute, end_of_document, end_of_document_error, events_view,
    found_attrib, found_attrib_or_error, required_attribute, unexpected_content_error,
    Event, EventView,
};
use crate::number::{decimal, decimal_chars, Number};
use crate::props::{
    bool_prop, check_no_refs, leaf_step, no_props, no_refs, read, read_bool, read_required,
    read_required_string, read_string, read_value, required, required_string, resume,
    string_prop, take_event, unknown_element, unknown_element_error, Outcome, Props, PropsView,
    Step,
};
use crate::scene::{Scene, SceneView};
use crate::text::{
    chars_of, split, split_chars, str_eq, string_of, trim, trim_chars, trim_each,
    words, words_of,
};
use crate::texture::{
    texture_of, BSDFColor, BSDFColorFloat, BSDFColorSpectrum, BSDFColorView, Texture,
    TextureView,
};
use crate::transform::{numbers_of, numbers_view};
use crate::value::{
    all_numbers, ior_value, mismatch, mismatch_error, ref_in, spectrum_in, trim_all, Error,
    ErrorView, Spectrum, Value, ValueView,
};
use vstd::prelude::*;
use vstd::string::StringExecFns;

verus! {

/// The roughness of a surface: one value, or one along each of two axes.
#[derive(Debug, PartialEq)]
pub enum Alpha {
    Isotropic(BSDFColorFloat),
    Anisotropic { u: BSDFColorFloat, v: BSDFColorFloat },
}

/// A [`Alpha`] as contracts see it: every text is the sequence of its
/// characters, and every list the sequence of its items.
pub enum AlphaView {
    Isotropic(BSDFColorView<Seq<char>>),
    Anisotropic { u: BSDFColorView<Seq<char>>, v: BSDFColorView<Seq<char>> },
}

impl View for Alpha {
    type V = AlphaView;

    open spec fn view(&self) -> AlphaView {
        match self {
            Alpha::Isotropic(a) => AlphaView::Isotropic(a@),
            Alpha::Anisotropic { u, v } => AlphaView::Anisotropic { u: u@, v: v@ },
        }
    }
}

impl Clone for Alpha {
    fn clone(&self) -> (r: Self)
        ensures
            r@ == self@,
    {
        match self {
            Alpha::Isotropic(a) => Alpha::Isotropic(a.clone()),
            Alpha::Anisotropic { u, v } => Alpha::Anisotropic { u: u.clone(), v: v.clone() },
        }
    }
}

/// A distribution of microfacets: its family by name, and its roughness.
#[derive(Debug, PartialEq)]
pub struct Distribution {
    pub distribution: String,
    pub alpha: Alpha,
}

/// A [`Distribution`] as contracts see it: every text is the sequence of its
/// characters, and every list the sequence of its items.
pub struct DistributionView {
    pub distribution: Seq<char>,
    pub alpha: AlphaView,
}

impl View for Distribution {
    type V = DistributionView;

    open spec fn view(&self) -> DistributionView {
        DistributionView { distribution: self.distribution@, alpha: self.alpha@ }
    }
}

impl Clone for Distribution {
    fn clone(&self) -> (r: Self)
        ensures
            r@ == self@,
    {
        Distribution { distribution: self.distribution.clone(), alpha: self.alpha.clone() }
    }
}

#[derive(Clone, Copy, PartialEq, Eq, Structural, Debug)]
pub enum WardVariant {
    Ward,
    WardDuer,
    Balanced,
}

/// A material.
#[allow(inconsistent_fields)]
#[derive(Debug, PartialEq)]
pub enum BSDF {
    Phong {
        exponent: BSDFColorFloat,
        specular_reflectance: BSDFColorSpectrum,
        diffuse_reflectance: BSDFColorSpectrum,
    },
    Diffuse { reflectance: BSDFColorSpectrum },
    Roughtdiffuse { reflectance: BSDFColorSpectrum, alpha: BSDFColorFloat, use_fast_approx: bool },
    Conductor {
        distribution: Option<Distribution>,
        eta: Spectrum,
        k: Spectrum,
        ext_eta: Number,
        specular_reflectance: BSDFColorSpectrum,
    },
    Dielectric {
        distribution: Option<Distribution>,
        int_ior: Number,
        ext_ior: Number,
        specular_reflectance: BSDFColorSpectrum,
        specular_transmittance: BSDFColorSpectrum,
        thin: bool,
    },
    Plastic {
        distribution: Option<Distribution>,
        int_ior: Number,
        ext_ior: Number,
        specular_reflectance: BSDFColorSpectrum,
        diffuse_reflectance: BSDFColorSpectrum,
        nonlinear: bool,
    },
    TwoSided { bsdf: Box<BSDF> },
    MixtureBSDF { weights: Vec<Number>, bsdfs: Vec<BSDF> },
    Ward {
        variant: WardVariant,
        alpha: Alpha,
        specular_reflectance: BSDFColorSpectrum,
        diffuse_reflectance: BSDFColorSpectrum,
    },
    Mask { opacity: BSDFColorSpectrum, bsdf: Box<BSDF> },
}

/// A [`BSDF`] as contracts see it: every text is the sequence of its
/// characters, and every list the sequence of its items.
#[allow(inconsistent_fields)]
pub enum BsdfView {
    Phong {
        exponent: BSDFColorView<Seq<char>>,
        specular_reflectance: BSDFColorView<Seq<char>>,
        diffuse_reflectance: BSDFColorView<Seq<char>>,
    },
    Diffuse { reflectance: BSDFColorView<Seq<char>> },
    Roughtdiffuse {
        reflectance: BSDFColorView<Seq<char>>,
        alpha: BSDFColorView<Seq<char>>,
        use_fast_approx: bool,
    },
    Conductor {
        distribution: Option<DistributionView>,
        eta: Seq<char>,
        k: Seq<char>,
        ext_eta: Seq<char>,
        specular_reflectance: BSDFColorView<Seq<char>>,
    },
    Dielectric {
        distribution: Option<DistributionView>,
        int_ior: Seq<char>,
        ext_ior: Seq<char>,
        specular_reflectance: BSDFColorView<Seq<char>>,
        specular_transmittance: BSDFColorView<Seq<char>>,
        thin: bool,
    },
    Plastic {
        distribution: Option<DistributionView>,
        int_ior: Seq<char>,
        ext_ior: Seq<char>,
        specular_reflectance: BSDFColorView<Seq<char>>,
        diffuse_reflectance: BSDFColorView<Seq<char>>,
        nonlinear: bool,
    },
    TwoSided { bsdf: Box<BsdfView> },
    MixtureBSDF { weights: Seq<Seq<char>>, bsdfs: Seq<BsdfView> },
    Ward {
        variant: WardVariant,
        alpha: AlphaView,
        specular_reflectance: BSDFColorView<Seq<char>>,
        diffuse_reflectance: BSDFColorView<Seq<char>>,
    },
    Mask { opacity: BSDFColorView<Seq<char>>, bsdf: Box<BsdfView> },
}

/// A material as contracts see it.
pub open spec fn bsdf_view(b: BSDF) -> BsdfView
    decreases b,
{
    match b {
        BSDF::Phong { exponent, specular_reflectance, diffuse_reflectance } => BsdfView::Phong {
            exponent: exponent@,
            specular_reflectance: specular_reflectance@,
            diffuse_reflectance: diffuse_reflectance@,
        },
        BSDF::Diffuse { reflectance } => BsdfView::Diffuse { reflectance: reflectance@ },
        BSDF::Roughtdiffuse { reflectance, alpha, use_fast_approx } => BsdfView::Roughtdiffuse {
            reflectance: reflectance@,
            alpha: alpha@,
            use_fast_approx,
        },
        BSDF::Conductor {
            distribution,
            eta,
            k,
            ext_eta,
            specular_reflectance,
        } => BsdfView::Conductor {
            distribution: option_view(distribution),
            eta: eta@,
            k: k@,
            ext_eta: ext_eta@,
            specular_reflectance: specular_reflectance@,
        },
        BSDF::Dielectric {
            distribution,
            int_ior,
            ext_ior,
            specular_reflectance,
            specular_transmittance,
            thin,
        } => BsdfView::Dielectric {
            distribution: option_view(distribution),
            int_ior: int_ior@,
            ext_ior: ext_ior@,
            specular_reflectance: specular_reflectance@,
            specular_transmittance: specular_transmittance@,
            thin,
        },
        BSDF::Plastic {
            distribution,
            int_ior,
            ext_ior,
            specular_reflectance,
            diffuse_reflectance,
            nonlinear,
        } => BsdfView::Plastic {
            distribution: option_view(distribution),
            int_ior: int_ior@,
            ext_ior: ext_ior@,
            specular_reflectance: specular_reflectance@,
            diffuse_reflectance: diffuse_reflectance@,
            nonlinear,
        },
        BSDF::TwoSided { bsdf } => BsdfView::TwoSided { bsdf: Box::new(bsdf_view(*bsdf)) },
        BSDF::MixtureBSDF { weights, bsdfs } => BsdfView::MixtureBSDF {
            weights: numbers_view(weights@),
            bsdfs: Seq::new(
                bsdfs@.len(),
                |i: int|
                    if 0 <= i < bsdfs@.len() {
                        bsdf_view(bsdfs@[i])
                    } else {
                        arbitrary()
                    },
            ),
        },
        BSDF::Ward {
            variant,
            alpha,
            specular_reflectance,
            diffuse_reflectance,
        } => BsdfView::Ward {
            variant,
            alpha: alpha@,
            specular_reflectance: specular_reflectance@,
            diffuse_reflectance: diffuse_reflectance@,
        },
        BSDF::Mask { opacity, bsdf } => BsdfView::Mask {
            opacity: opacity@,
            bsdf: Box::new(bsdf_view(*bsdf)),
        },
    }
}

impl View for BSDF {
    type V = BsdfView;

    open spec fn view(&self) -> BsdfView {
        bsdf_view(*self)
    }
}

/// Materials as contracts see them, in their order.
pub open spec fn bsdfs_view(list: Seq<BSDF>) -> Seq<BsdfView> {
    Seq::new(list.len(), |i: int| list[i]@)
}

fn copy_distribution(d: &Option<Distribution>) -> (r: Option<Distribution>)
    ensures
        option_view(r) == option_view(*d),
{
    match d {
        Some(x) => Some(x.clone()),
        None => None,
    }
}

fn copy_numbers(list: &Vec<Number>) -> (r: Vec<Number>)
    ensures
        numbers_view(r@) == numbers_view(list@),
{
    let mut out: Vec<Number> = Vec::new();
    let mut i: usize = 0;
    while i < list.len()
        invariant
            i <= list.len(),
            out.len() == i,
            forall|j: int| 0 <= j < i ==> out@[j]@ == list@[j]@,
        decreases list.len() - i,
    {
        out.push(list[i].clone());
        i += 1;
    }
    assert(numbers_view(out@) =~= numbers_view(list@));
    out
}

#[verifier::loop_isolation(false)]
fn copy_bsdf(b: &BSDF) -> (r: BSDF)
    ensures
        r@ == b@,
    decreases b,
{
    match b {
        BSDF::Phong { exponent, specular_reflectance, diffuse_reflectance } => BSDF::Phong {
            exponent: exponent.clone(),
            specular_reflectance: specular_reflectance.clone(),
            diffuse_reflectance: diffuse_reflectance.clone(),
        },
        BSDF::Diffuse { reflectance } => BSDF::Diffuse { reflectance: reflectance.clone() },
        BSDF::Roughtdiffuse { reflectance, alpha, use_fast_approx } => BSDF::Roughtdiffuse {
            reflectance: reflectance.clone(),
            alpha: alpha.clone(),
            use_fast_approx: *use_fast_approx,
        },
        BSDF::Conductor { distribution, eta, k, ext_eta, specular_reflectance } => BSDF::Conductor {
            distribution: copy_distribution(distribution),
            eta: eta.clone(),
            k: k.clone(),
            ext_eta: ext_eta.clone(),
            specular_reflectance: specular_reflectance.clone(),
        },
        BSDF::Dielectric {
            distribution,
            int_ior,
            ext_ior,
            specular_reflectance,
            specular_transmittance,
            thin,
        } => BSDF::Dielectric {
            distribution: copy_distribution(distribution),
            int_ior: int_ior.clone(),
            ext_ior: ext_ior.clone(),
            specular_reflectance: specular_reflectance.clone(),
            specular_transmittance: specular_transmittance.clone(),
            thin: *thin,
        },
        BSDF::Plastic {
            distribution,
            int_ior,
            ext_ior,
            specular_reflectance,
            diffuse_reflectance,
            nonlinear,
        } => BSDF::Plastic {
            distribution: copy_distribution(distribution),
            int_ior: int_ior.clone(),
            ext_ior: ext_ior.clone(),
            specular_reflectance: specular_reflectance.clone(),
            diffuse_reflectance: diffuse_reflectance.clone(),
            nonlinear: *nonlinear,
        },
        BSDF::TwoSided { bsdf } => BSDF::TwoSided { bsdf: Box::new(copy_bsdf(&**bsdf)) },
        BSDF::MixtureBSDF { weights, bsdfs } => {
            let mut out: Vec<BSDF> = Vec::new();
            let mut i: usize = 0;
            while i < bsdfs.len()
                invariant
                    i <= bsdfs.len(),
                    out.len() == i,
                    forall|j: int| 0 <= j < i ==> out@[j]@ == bsdfs@[j]@,
                decreases bsdfs.len() - i,
            {
                assert(decreases_to!(bsdfs => bsdfs@[i as int]));
                out.push(copy_bsdf(&bsdfs[i]));
                i += 1;
            }
            let r = BSDF::MixtureBSDF { weights: copy_numbers(weights), bsdfs: out };
            assert(r@->MixtureBSDF_bsdfs =~= b@->MixtureBSDF_bsdfs);
            r
        },
        BSDF::Ward { variant, alpha, specular_reflectance, diffuse_reflectance } => BSDF::Ward {
            variant: *variant,
            alpha: alpha.clone(),
            specular_reflectance: specular_reflectance.clone(),
            diffuse_reflectance: diffuse_reflectance.clone(),
        },
        BSDF::Mask { opacity, bsdf } => BSDF::Mask {
            opacity: opacity.clone(),
            bsdf: Box::new(copy_bsdf(&**bsdf)),
        },
    }
}

impl Clone for BSDF {
    fn clone(&self) -> (r: Self)
        ensures
            r@ == self@,
    {
        copy_bsdf(self)
    }
}

/// The refractive index and the extinction coefficient of a named conductor.
pub open spec fn material_of(name: Seq<char>) -> Option<(Seq<char>, Seq<char>)> {
    if name == "a-C"@ {
        Some(("2.9296, 2.22909, 1.97023"@, "0.892218, 0.791926, 0.815701"@))
    } else if name == "Ag"@ {
        Some(("0.155518, 0.116786, 0.138372"@, "4.83241, 3.12322, 2.14934"@))
    } else if name == "AlAs_palik"@ {
        Some(("3.60456, 3.23388, 2.20695"@, "0.000688883, -0.000497156, 0.00753"@))
    } else if name == "AlAs"@ {
        Some(("3.60456, 3.23388, 2.20695"@, "0.000688883, -0.000497156, 0.00753"@))
    } else if name == "AlSb_palik"@ {
        Some(("-0.0339369, 4.14454, 4.6468"@, "-0.0330091, 0.10024, 1.29296"@))
    } else if name == "AlSb"@ {
        Some(("-0.0339369, 4.14454, 4.6468"@, "-0.0330091, 0.10024, 1.29296"@))
    } else if name == "Al"@ {
        Some(("1.66026, 0.881462, 0.521613"@, "9.22807, 6.27106, 4.84111"@))
    } else if name == "Au"@ {
        Some(("0.143552, 0.377438, 1.43825"@, "3.98397, 2.38495, 1.60434"@))
    } else if name == "Be_palik"@ {
        Some(("4.17079, 3.18615, 2.78579"@, "3.84741, 3.00959, 2.86869"@))
    } else if name == "Be"@ {
        Some(("4.17079, 3.18615, 2.78579"@, "3.84741, 3.00959, 2.86869"@))
    } else if name == "Cr"@ {
        Some(("4.48822, 2.90684, 1.66261"@, "5.21422, 4.2289, 3.75312"@))
    } else if name == "CsI_palik"@ {
        Some(("2.14445, 1.70236, 1.66293"@, "0, 0, 0"@))
    } else if name == "CsI"@ {
        Some(("2.14445, 1.70236, 1.66293"@, "0, 0, 0"@))
    } else if name == "Cu2O_palik"@ {
        Some(("3.54545, 2.94339, 2.71336"@, "0.120343, 0.205637, 0.637298"@))
    } else if name == "Cu2O"@ {
        Some(("3.54545, 2.94339, 2.71336"@, "0.120343, 0.205637, 0.637298"@))
    } else if name == "CuO_palik"@ {
        Some(("3.25286, 2.44938, 2.2043"@, "0.520388, 0.569286, 0.726005"@))
    } else if name == "CuO"@ {
        Some(("3.25286, 2.44938, 2.2043"@, "0.520388, 0.569286, 0.726005"@))
    } else if name == "Cu_palik"@ {
        Some(("0.241275, 0.903804, 1.10182"@, "3.95032, 2.46606, 2.1349"@))
    } else if name == "Cu"@ {
        Some(("0.208084, 0.919438, 1.10263"@, "3.92329, 2.45611, 2.14264"@))
    } else if name == "d-C_palik"@ {
        Some(("2.71105, 2.31816, 2.23336"@, "0, 0, 0"@))
    } else if name == "d-C"@ {
        Some(("2.71105, 2.31816, 2.23336"@, "0, 0, 0"@))
    } else if name == "Hg_palik"@ {
        Some(("2.42652, 1.45642, 0.914459"@, "6.34803, 4.39248, 3.42748"@))
    } else if name == "HgTe_palik"@ {
        Some(("4.77919, 3.23163, 2.66017"@, "1.63198, 1.58015, 1.72981"@))
    } else if name == "HgTe"@ {
        Some(("4.77919, 3.23163, 2.66017"@, "1.63198, 1.58015, 1.72981"@))
    } else if name == "Hg"@ {
        Some(("2.42652, 1.45642, 0.914459"@, "6.34803, 4.39248, 3.42748"@))
    } else if name == "Ir_palik"@ {
        Some(("3.08243, 2.08491, 1.62028"@, "5.59771, 4.06635, 3.27186"@))
    } else if name == "Ir"@ {
        Some(("3.08243, 2.08491, 1.62028"@, "5.59771, 4.06635, 3.27186"@))
    } else if name == "K_palik"@ {
        Some(("0.0621071, 0.0466027, 0.0384292"@, "2.12697, 1.3591, 0.9177"@))
    } else if name == "K"@ {
        Some(("0.0621071, 0.0466027, 0.0384292"@, "2.12697, 1.3591, 0.9177"@))
    } else if name == "Li_palik"@ {
        Some(("0.269451, 0.200441, 0.223339"@, "3.54131, 2.3517, 1.68708"@))
    } else if name == "Li"@ {
        Some(("0.269451, 0.200441, 0.223339"@, "3.54131, 2.3517, 1.68708"@))
    } else if name == "MgO_palik"@ {
        Some(("2.08988, 1.65047, 1.5956"@, "4.38534e-12, -3.64587e-12, 2.53198e-11"@))
    } else if name == "MgO"@ {
        Some(("2.08988, 1.65047, 1.5956"@, "4.38534e-12, -3.64587e-12, 2.53198e-11"@))
    } else if name == "Mo_palik"@ {
        Some(("4.49907, 3.51237, 2.78469"@, "4.12556, 3.4205, 3.15286"@))
    } else if name == "Mo"@ {
        Some(("4.49907, 3.51237, 2.78469"@, "4.12556, 3.4205, 3.15286"@))
    } else if name == "Na_palik"@ {
        Some(("0.0607451, 0.0557257, 0.061748"@, "3.20798, 2.12669, 1.58797"@))
    } else if name == "Nb_palik"@ {
        Some(("3.40884, 2.78681, 2.39788"@, "3.44282, 2.73855, 2.57476"@))
    } else if name == "Nb"@ {
        Some(("3.40884, 2.78681, 2.39788"@, "3.44282, 2.73855, 2.57476"@))
    } else if name == "Ni_palik"@ {
        Some(("2.36454, 1.66584, 1.46819"@, "4.48772, 3.05528, 2.34846"@))
    } else if name == "Rh_palik"@ {
        Some(("2.59089, 1.86185, 1.55039"@, "6.79501, 4.70811, 3.9766"@))
    } else if name == "Rh"@ {
        Some(("2.59089, 1.86185, 1.55039"@, "6.79501, 4.70811, 3.9766"@))
    } else if name == "Se-e_palik"@ {
        Some(("5.56086, 4.22302, 4.0475"@, "0.761602, 1.0705, 1.5996"@))
    } else if name == "Se-e"@ {
        Some(("5.56086, 4.22302, 4.0475"@, "0.761602, 1.0705, 1.5996"@))
    } else if name == "Se_palik"@ {
        Some(("3.9737, 2.88842, 2.82447"@, "0.631111, 0.6311, 0.54084"@))
    } else if name == "Se"@ {
        Some(("3.9737, 2.88842, 2.82447"@, "0.631111, 0.6311, 0.54084"@))
    } else if name == "SiC_palik"@ {
        Some(("3.17069, 2.52702, 2.47947"@, "1.54029e-06, -1.49586e-06, 1.47636e-05"@))
    } else if name == "SiC"@ {
        Some(("3.17069, 2.52702, 2.47947"@, "1.54029e-06, -1.49586e-06, 1.47636e-05"@))
    } else if name == "SnTe_palik"@ {
        Some(("4.538, 1.9804, 1.2824"@, "0, 0, 0"@))
    } else if name == "SnTe"@ {
        Some(("4.538, 1.9804, 1.2824"@, "0, 0, 0"@))
    } else if name == "Ta_palik"@ {
        Some(("2.05979, 2.38107, 2.62559"@, "2.43996, 1.74619, 1.94588"@))
    } else if name == "Ta"@ {
        Some(("2.05979, 2.38107, 2.62559"@, "2.43996, 1.74619, 1.94588"@))
    } else if name == "Te-e_palik"@ {
        Some(("7.48425, 4.31476, 2.37063"@, "5.59077, 4.93514, 4.00092"@))
    } else if name == "Te-e"@ {
        Some(("7.48425, 4.31476, 2.37063"@, "5.59077, 4.93514, 4.00092"@))
    } else if name == "Te_palik"@ {
        Some(("7.36846, 4.4946, 2.63798"@, "3.26738, 3.51453, 3.2917"@))
    } else if name == "Te"@ {
        Some(("7.36846, 4.4946, 2.63798"@, "3.26738, 3.51453, 3.2917"@))
    } else if name == "ThF4_palik"@ {
        Some(("1.83057, 1.44222, 1.38804"@, "0, 0, 0"@))
    } else if name == "ThF4"@ {
        Some(("1.83057, 1.44222, 1.38804"@, "0, 0, 0"@))
    } else if name == "TiC_palik"@ {
        Some(("3.82591, 2.83346, 2.59154"@, "3.18532, 2.41109, 2.1752"@))
    } else if name == "TiC"@ {
        Some(("3.82591, 2.83346, 2.59154"@, "3.18532, 2.41109, 2.1752"@))
    } else if name == "TiN_palik"@ {
        Some(("1.70939, 1.20202, 1.35264"@, "3.02375, 2.10671, 1.1688"@))
    } else if name == "TiN"@ {
        Some(("1.70939, 1.20202, 1.35264"@, "3.02375, 2.10671, 1.1688"@))
    } else if name == "TiO2-e_palik"@ {
        Some(("3.10648, 2.51369, 2.585"@, "6.15808e-05, -5.38042e-05, 0.000381368"@))
    } else if name == "TiO2-e"@ {
        Some(("3.10648, 2.51369, 2.585"@, "6.15808e-05, -5.38042e-05, 0.000381368"@))
    } else if name == "TiO2_palik"@ {
        Some(("3.45676, 2.80243, 2.90704"@, "0.000130815, -0.000114216, 0.000809353"@))
    } else if name == "TiO2"@ {
        Some(("3.45676, 2.80243, 2.90704"@, "0.000130815, -0.000114216, 0.000809353"@))
    } else if name == "VC_palik"@ {
        Some(("3.67232, 2.77627, 2.53826"@, "2.97645, 2.25387, 1.97359"@))
    } else if name == "VC"@ {
        Some(("3.67232, 2.77627, 2.53826"@, "2.97645, 2.25387, 1.97359"@))
    } else if name == "VN_palik"@ {
        Some(("2.87842, 2.14604, 1.94788"@, "2.83558, 2.13656, 1.64581"@))
    } else if name == "VN"@ {
        Some(("2.87842, 2.14604, 1.94788"@, "2.83558, 2.13656, 1.64581"@))
    } else if name == "V_palik"@ {
        Some(("4.27582, 3.50453, 2.76487"@, "3.50165, 2.89143, 3.10752"@))
    } else if name == "W"@ {
        Some(("4.37464, 3.29988, 2.99998"@, "3.49872, 2.60604, 2.27449"@))
    } else if name == "none"@ {
        Some(("0.0, 0.0, 0.0"@, "1.0, 1.0, 1.0"@))
    } else {
        None
    }
}

/// The refractive index and the extinction coefficient of a named conductor.
pub fn lookup_material(name: &str) -> (r: Option<(Spectrum, Spectrum)>)
    ensures
        match material_of(name@) {
            Some(m) => r matches Some(x) && x.0@ == m.0 && x.1@ == m.1,
            None => r is None,
        },
{
    if str_eq(name, "a-C") {
        Some((Spectrum::new("2.9296, 2.22909, 1.97023"), Spectrum::new("0.892218, 0.791926, 0.815701")))
    } else if str_eq(name, "Ag") {
        Some((Spectrum::new("0.155518, 0.116786, 0.138372"), Spectrum::new("4.83241, 3.12322, 2.14934")))
    } else if str_eq(name, "AlAs_palik") {
        Some((Spectrum::new("3.60456, 3.23388, 2.20695"), Spectrum::new("0.000688883, -0.000497156, 0.00753")))
    } else if str_eq(name, "AlAs") {
        Some((Spectrum::new("3.60456, 3.23388, 2.20695"), Spectrum::new("0.000688883, -0.000497156, 0.00753")))
    } else if str_eq(name, "AlSb_palik") {
        Some((Spectrum::new("-0.0339369, 4.14454, 4.6468"), Spectrum::new("-0.0330091, 0.10024, 1.29296")))
    } else if str_eq(name, "AlSb") {
        Some((Spectrum::new("-0.0339369, 4.14454, 4.6468"), Spectrum::new("-0.0330091, 0.10024, 1.29296")))
    } else if str_eq(name, "Al") {
        Some((Spectrum::new("1.66026, 0.881462, 0.521613"), Spectrum::new("9.22807, 6.27106, 4.84111")))
    } else if str_eq(name, "Au") {
        Some((Spectrum::new("0.143552, 0.377438, 1.43825"), Spectrum::new("3.98397, 2.38495, 1.60434")))
    } else if str_eq(name, "Be_palik") {
        Some((Spectrum::new("4.17079, 3.18615, 2.78579"), Spectrum::new("3.84741, 3.00959, 2.86869")))
    } else if str_eq(name, "Be") {
        Some((Spectrum::new("4.17079, 3.18615, 2.78579"), Spectrum::new("3.84741, 3.00959, 2.86869")))
    } else if str_eq(name, "Cr") {
        Some((Spectrum::new("4.48822, 2.90684, 1.66261"), Spectrum::new("5.21422, 4.2289, 3.75312")))
    } else if str_eq(name, "CsI_palik") {
        Some((Spectrum::new("2.14445, 1.70236, 1.66293"), Spectrum::new("0, 0, 0")))
    } else if str_eq(name, "CsI") {
        Some((Spectrum::new("2.14445, 1.70236, 1.66293"), Spectrum::new("0, 0, 0")))
    } else if str_eq(name, "Cu2O_palik") {
        Some((Spectrum::new("3.54545, 2.94339, 2.71336"), Spectrum::new("0.120343, 0.205637, 0.637298")))
    } else if str_eq(name, "Cu2O") {
        Some((Spectrum::new("3.54545, 2.94339, 2.71336"), Spectrum::new("0.120343, 0.205637, 0.637298")))
    } else if str_eq(name, "CuO_palik") {
        Some((Spectrum::new("3.25286, 2.44938, 2.2043"), Spectrum::new("0.520388, 0.569286, 0.726005")))
    } else if str_eq(name, "CuO") {
        Some((Spectrum::new("3.25286, 2.44938, 2.2043"), Spectrum::new("0.520388, 0.569286, 0.726005")))
    } else if str_eq(name, "Cu_palik") {
        Some((Spectrum::new("0.241275, 0.903804, 1.10182"), Spectrum::new("3.95032, 2.46606, 2.1349")))
    } else if str_eq(name, "Cu") {
        Some((Spectrum::new("0.208084, 0.919438, 1.10263"), Spectrum::new("3.92329, 2.45611, 2.14264")))
    } else if str_eq(name, "d-C_palik") {
        Some((Spectrum::new("2.71105, 2.31816, 2.23336"), Spectrum::new("0, 0, 0")))
    } else if str_eq(name, "d-C") {
        Some((Spectrum::new("2.71105, 2.31816, 2.23336"), Spectrum::new("0, 0, 0")))
    } else if str_eq(name, "Hg_palik") {
        Some((Spectrum::new("2.42652, 1.45642, 0.914459"), Spectrum::new("6.34803, 4.39248, 3.42748")))
    } else if str_eq(name, "HgTe_palik") {
        Some((Spectrum::new("4.77919, 3.23163, 2.66017"), Spectrum::new("1.63198, 1.58015, 1.72981")))
    } else if str_eq(name, "HgTe") {
        Some((Spectrum::new("4.77919, 3.23163, 2.66017"), Spectrum::new("1.63198, 1.58015, 1.72981")))
    } else if str_eq(name, "Hg") {
        Some((Spectrum::new("2.42652, 1.45642, 0.914459"), Spectrum::new("6.34803, 4.39248, 3.42748")))
    } else if str_eq(name, "Ir_palik") {
        Some((Spectrum::new("3.08243, 2.08491, 1.62028"), Spectrum::new("5.59771, 4.06635, 3.27186")))
    } else if str_eq(name, "Ir") {
        Some((Spectrum::new("3.08243, 2.08491, 1.62028"), Spectrum::new("5.59771, 4.06635, 3.27186")))
    } else if str_eq(name, "K_palik") {
        Some((Spectrum::new("0.0621071, 0.0466027, 0.0384292"), Spectrum::new("2.12697, 1.3591, 0.9177")))
    } else if str_eq(name, "K") {
        Some((Spectrum::new("0.0621071, 0.0466027, 0.0384292"), Spectrum::new("2.12697, 1.3591, 0.9177")))
    } else if str_eq(name, "Li_palik") {
        Some((Spectrum::new("0.269451, 0.200441, 0.223339"), Spectrum::new("3.54131, 2.3517, 1.68708")))
    } else if str_eq(name, "Li") {
        Some((Spectrum::new("0.269451, 0.200441, 0.223339"), Spectrum::new("3.54131, 2.3517, 1.68708")))
    } else if str_eq(name, "MgO_palik") {
        Some((Spectrum::new("2.08988, 1.65047, 1.5956"), Spectrum::new("4.38534e-12, -3.64587e-12, 2.53198e-11")))
    } else if str_eq(name, "MgO") {
        Some((Spectrum::new("2.08988, 1.65047, 1.5956"), Spectrum::new("4.38534e-12, -3.64587e-12, 2.53198e-11")))
    } else if str_eq(name, "Mo_palik") {
        Some((Spectrum::new("4.49907, 3.51237, 2.78469"), Spectrum::new("4.12556, 3.4205, 3.15286")))
    } else if str_eq(name, "Mo") {
        Some((Spectrum::new("4.49907, 3.51237, 2.78469"), Spectrum::new("4.12556, 3.4205, 3.15286")))
    } else if str_eq(name, "Na_palik") {
        Some((Spectrum::new("0.0607451, 0.0557257, 0.061748"), Spectrum::new("3.20798, 2.12669, 1.58797")))
    } else if str_eq(name, "Nb_palik") {
        Some((Spectrum::new("3.40884, 2.78681, 2.39788"), Spectrum::new("3.44282, 2.73855, 2.57476")))
    } else if str_eq(name, "Nb") {
        Some((Spectrum::new("3.40884, 2.78681, 2.39788"), Spectrum::new("3.44282, 2.73855, 2.57476")))
    } else if str_eq(name, "Ni_palik") {
        Some((Spectrum::new("2.36454, 1.66584, 1.46819"), Spectrum::new("4.48772, 3.05528, 2.34846")))
    } else if str_eq(name, "Rh_palik") {
        Some((Spectrum::new("2.59089, 1.86185, 1.55039"), Spectrum::new("6.79501, 4.70811, 3.9766")))
    } else if str_eq(name, "Rh") {
        Some((Spectrum::new("2.59089, 1.86185, 1.55039"), Spectrum::new("6.79501, 4.70811, 3.9766")))
    } else if str_eq(name, "Se-e_palik") {
        Some((Spectrum::new("5.56086, 4.22302, 4.0475"), Spectrum::new("0.761602, 1.0705, 1.5996")))
    } else if str_eq(name, "Se-e") {
        Some((Spectrum::new("5.56086, 4.22302, 4.0475"), Spectrum::new("0.761602, 1.0705, 1.5996")))
    } else if str_eq(name, "Se_palik") {
        Some((Spectrum::new("3.9737, 2.88842, 2.82447"), Spectrum::new("0.631111, 0.6311, 0.54084")))
    } else if str_eq(name, "Se") {
        Some((Spectrum::new("3.9737, 2.88842, 2.82447"), Spectrum::new("0.631111, 0.6311, 0.54084")))
    } else if str_eq(name, "SiC_palik") {
        Some((Spectrum::new("3.17069, 2.52702, 2.47947"), Spectrum::new("1.54029e-06, -1.49586e-06, 1.47636e-05")))
    } else if str_eq(name, "SiC") {
        Some((Spectrum::new("3.17069, 2.52702, 2.47947"), Spectrum::new("1.54029e-06, -1.49586e-06, 1.47636e-05")))
    } else if str_eq(name, "SnTe_palik") {
        Some((Spectrum::new("4.538, 1.9804, 1.2824"), Spectrum::new("0, 0, 0")))
    } else if str_eq(name, "SnTe") {
        Some((Spectrum::new("4.538, 1.9804, 1.2824"), Spectrum::new("0, 0, 0")))
    } else if str_eq(name, "Ta_palik") {
        Some((Spectrum::new("2.05979, 2.38107, 2.62559"), Spectrum::new("2.43996, 1.74619, 1.94588")))
    } else if str_eq(name, "Ta") {
        Some((Spectrum::new("2.05979, 2.38107, 2.62559"), Spectrum::new("2.43996, 1.74619, 1.94588")))
    } else if str_eq(name, "Te-e_palik") {
        Some((Spectrum::new("7.48425, 4.31476, 2.37063"), Spectrum::new("5.59077, 4.93514, 4.00092")))
    } else if str_eq(name, "Te-e") {
        Some((Spectrum::new("7.48425, 4.31476, 2.37063"), Spectrum::new("5.59077, 4.93514, 4.00092")))
    } else if str_eq(name, "Te_palik") {
        Some((Spectrum::new("7.36846, 4.4946, 2.63798"), Spectrum::new("3.26738, 3.51453, 3.2917")))
    } else if str_eq(name, "Te") {
        Some((Spectrum::new("7.36846, 4.4946, 2.63798"), Spectrum::new("3.26738, 3.51453, 3.2917")))
    } else if str_eq(name, "ThF4_palik") {
        Some((Spectrum::new("1.83057, 1.44222, 1.38804"), Spectrum::new("0, 0, 0")))
    } else if str_eq(name, "ThF4") {
        Some((Spectrum::new("1.83057, 1.44222, 1.38804"), Spectrum::new("0, 0, 0")))
    } else if str_eq(name, "TiC_palik") {
        Some((Spectrum::new("3.82591, 2.83346, 2.59154"), Spectrum::new("3.18532, 2.41109, 2.1752")))
    } else if str_eq(name, "TiC") {
        Some((Spectrum::new("3.82591, 2.83346, 2.59154"), Spectrum::new("3.18532, 2.41109, 2.1752")))
    } else if str_eq(name, "TiN_palik") {
        Some((Spectrum::new("1.70939, 1.20202, 1.35264"), Spectrum::new("3.02375, 2.10671, 1.1688")))
    } else if str_eq(name, "TiN") {
        Some((Spectrum::new("1.70939, 1.20202, 1.35264"), Spectrum::new("3.02375, 2.10671, 1.1688")))
    } else if str_eq(name, "TiO2-e_palik") {
        Some((Spectrum::new("3.10648, 2.51369, 2.585"), Spectrum::new("6.15808e-05, -5.38042e-05, 0.000381368")))
    } else if str_eq(name, "TiO2-e") {
        Some((Spectrum::new("3.10648, 2.51369, 2.585"), Spectrum::new("6.15808e-05, -5.38042e-05, 0.000381368")))
    } else if str_eq(name, "TiO2_palik") {
        Some((Spectrum::new("3.45676, 2.80243, 2.90704"), Spectrum::new("0.000130815, -0.000114216, 0.000809353")))
    } else if str_eq(name, "TiO2") {
        Some((Spectrum::new("3.45676, 2.80243, 2.90704"), Spectrum::new("0.000130815, -0.000114216, 0.000809353")))
    } else if str_eq(name, "VC_palik") {
        Some((Spectrum::new("3.67232, 2.77627, 2.53826"), Spectrum::new("2.97645, 2.25387, 1.97359")))
    } else if str_eq(name, "VC") {
        Some((Spectrum::new("3.67232, 2.77627, 2.53826"), Spectrum::new("2.97645, 2.25387, 1.97359")))
    } else if str_eq(name, "VN_palik") {
        Some((Spectrum::new("2.87842, 2.14604, 1.94788"), Spectrum::new("2.83558, 2.13656, 1.64581")))
    } else if str_eq(name, "VN") {
        Some((Spectrum::new("2.87842, 2.14604, 1.94788"), Spectrum::new("2.83558, 2.13656, 1.64581")))
    } else if str_eq(name, "V_palik") {
        Some((Spectrum::new("4.27582, 3.50453, 2.76487"), Spectrum::new("3.50165, 2.89143, 3.10752")))
    } else if str_eq(name, "W") {
        Some((Spectrum::new("4.37464, 3.29988, 2.99998"), Spectrum::new("3.49872, 2.60604, 2.27449")))
    } else if str_eq(name, "none") {
        Some((Spectrum::new("0.0, 0.0, 0.0"), Spectrum::new("1.0, 1.0, 1.0")))
    } else {
        None
    }
}

/// A parameter that is a spectrum: the constant that the value is, or the
/// texture that it refers to among `textures`.
pub open spec fn colour_spectrum(v: ValueView, textures: Seq<(Seq<char>, TextureView)>) -> Result<
    BSDFColorView<Seq<char>>,
    ErrorView,
> {
    match v {
        ValueView::Spectrum(s) => Ok(BSDFColorView::Constant(s)),
        ValueView::Ref(id) => match dict_get(textures, id) {
            Some(t) => Ok(BSDFColorView::Texture(t)),
            None => Err(ErrorView::UnresolvedReference(id)),
        },
        _ => Err(mismatch("as_bsdf_color_spec"@, v)),
    }
}

/// A parameter that is a number: the constant that the value is, or the
/// texture that it refers to among `textures`.
pub open spec fn colour_float(v: ValueView, textures: Seq<(Seq<char>, TextureView)>) -> Result<
    BSDFColorView<Seq<char>>,
    ErrorView,
> {
    match v {
        ValueView::Float(s) => Ok(BSDFColorView::Constant(s)),
        ValueView::Ref(id) => match dict_get(textures, id) {
            Some(t) => Ok(BSDFColorView::Texture(t)),
            None => Err(ErrorView::UnresolvedReference(id)),
        },
        _ => Err(mismatch("as_bsdf_color_f32"@, v)),
    }
}

/// A spectrum parameter of a material: the property `key` where there is
/// one, else the texture that the element holds under that name, else the
/// constant `fallback`.
pub open spec fn spectrum_or_texture(
    m: Seq<(Seq<char>, ValueView)>,
    key: Seq<char>,
    fallback: Seq<char>,
    local: Seq<(Seq<char>, TextureView)>,
    textures: Seq<(Seq<char>, TextureView)>,
) -> Result<BSDFColorView<Seq<char>>, ErrorView> {
    match dict_get(m, key) {
        Some(v) => colour_spectrum(v, textures),
        None => match dict_get(local, key) {
            Some(t) => Ok(BSDFColorView::Texture(t)),
            None => Ok(BSDFColorView::Constant(fallback)),
        },
    }
}

/// A number parameter of a material: the property `key` where there is one,
/// else the texture that the element holds under that name, else the
/// constant `fallback`.
pub open spec fn float_or_texture(
    m: Seq<(Seq<char>, ValueView)>,
    key: Seq<char>,
    fallback: Seq<char>,
    local: Seq<(Seq<char>, TextureView)>,
    textures: Seq<(Seq<char>, TextureView)>,
) -> Result<BSDFColorView<Seq<char>>, ErrorView> {
    match dict_get(m, key) {
        Some(v) => colour_float(v, textures),
        None => match dict_get(local, key) {
            Some(t) => Ok(BSDFColorView::Texture(t)),
            None => Ok(BSDFColorView::Constant(fallback)),
        },
    }
}

/// The roughness that properties give: `alpha` where it is there, and
/// `alpha_u` and `alpha_v` otherwise, which are one value where they are alike.
pub open spec fn alpha_from(m: Seq<(Seq<char>, ValueView)>, textures: Seq<(Seq<char>, TextureView)>) -> Result<
    AlphaView,
    ErrorView,
> {
    match dict_get(m, "alpha"@) {
        Some(v) => match colour_float(v, textures) {
            Err(e) => Err(e),
            Ok(a) => Ok(AlphaView::Isotropic(a)),
        },
        None => match colour_float(read(m, "alpha_u"@, ValueView::Float("0.1"@)), textures) {
            Err(e) => Err(e),
            Ok(u) => match colour_float(read(m, "alpha_v"@, ValueView::Float("0.1"@)), textures) {
                Err(e) => Err(e),
                Ok(v) => if u == v {
                    Ok(AlphaView::Isotropic(u))
                } else {
                    Ok(AlphaView::Anisotropic { u, v })
                },
            },
        },
    }
}

/// The distribution that properties give: its family, `beckmann` unless
/// named, and its roughness.
pub open spec fn distribution_from(
    m: Seq<(Seq<char>, ValueView)>,
    textures: Seq<(Seq<char>, TextureView)>,
) -> Result<DistributionView, ErrorView> {
    match string_prop(m, "distribution"@, "beckmann"@) {
        Err(e) => Err(e),
        Ok(distribution) => match alpha_from(m, textures) {
            Err(e) => Err(e),
            Ok(alpha) => Ok(DistributionView { distribution, alpha }),
        },
    }
}

/// The distribution of a rough material, and none of a smooth one.
pub open spec fn distribution_if(
    rough: bool,
    m: Seq<(Seq<char>, ValueView)>,
    textures: Seq<(Seq<char>, TextureView)>,
) -> Result<Option<DistributionView>, ErrorView> {
    if rough {
        match distribution_from(m, textures) {
            Err(e) => Err(e),
            Ok(d) => Ok(Some(d)),
        }
    } else {
        Ok(None)
    }
}

/// The material that stands in where none is given.
pub open spec fn default_bsdf() -> BsdfView {
    BsdfView::Diffuse { reflectance: BSDFColorView::Constant("0.8"@) }
}

/// The names of the kinds of material.
pub open spec fn is_bsdf_type(ty: Seq<char>) -> bool {
    ty == "phong"@ || ty == "diffuse"@ || ty == "dielectric"@ || ty == "roughdielectric"@ || ty
        == "thindielectric"@ || ty == "mask"@ || ty == "twosided"@ || ty == "roughplastic"@ || ty
        == "plastic"@ || ty == "roughdiffuse"@ || ty == "mixturebsdf"@ || ty == "conductor"@ || ty
        == "roughconductor"@ || ty == "ward"@
}

/// The kinds of material that hold materials.
pub open spec fn nests(ty: Seq<char>) -> bool {
    ty == "mask"@ || ty == "twosided"@ || ty == "mixturebsdf"@
}

/// What the body of a `bsdf` element gave: its properties, its textures by
/// name, and the materials inside it.
pub struct BsdfParts {
    pub props: PropsView,
    pub local: Seq<(Seq<char>, TextureView)>,
    pub children: Seq<BsdfView>,
}

/// No property, no texture and no material.
pub open spec fn no_parts() -> BsdfParts {
    BsdfParts { props: no_props(), local: Seq::empty(), children: Seq::empty() }
}

/// A material after Phong.
pub open spec fn phong_from(
    m: Seq<(Seq<char>, ValueView)>,
    local: Seq<(Seq<char>, TextureView)>,
    textures: Seq<(Seq<char>, TextureView)>,
) -> Result<BsdfView, ErrorView> {
    match float_or_texture(m, "exponent"@, "30"@, local, textures) {
        Err(e) => Err(e),
        Ok(exponent) => match spectrum_or_texture(
            m,
            "specularReflectance"@,
            "0.2"@,
            local,
            textures,
        ) {
            Err(e) => Err(e),
            Ok(specular_reflectance) => match spectrum_or_texture(
                m,
                "diffuseReflectance"@,
                "0.5"@,
                local,
                textures,
            ) {
                Err(e) => Err(e),
                Ok(diffuse_reflectance) => Ok(
                    BsdfView::Phong { exponent, specular_reflectance, diffuse_reflectance },
                ),
            },
        },
    }
}

/// A diffuse material. Its reflectance is `reflectance`; where that gives
/// the constant 0.5, `diffuseReflectance` is read in its place.
pub open spec fn diffuse_from(
    m: Seq<(Seq<char>, ValueView)>,
    local: Seq<(Seq<char>, TextureView)>,
    textures: Seq<(Seq<char>, TextureView)>,
) -> Result<BsdfView, ErrorView> {
    match spectrum_or_texture(m, "reflectance"@, "0.5"@, local, textures) {
        Err(e) => Err(e),
        Ok(first) => if first == BSDFColorView::Constant("0.5"@) {
            match spectrum_or_texture(m, "diffuseReflectance"@, "0.5"@, local, textures) {
                Err(e) => Err(e),
                Ok(reflectance) => Ok(BsdfView::Diffuse { reflectance }),
            }
        } else {
            Ok(BsdfView::Diffuse { reflectance: first })
        },
    }
}

/// The indices of refraction inside and outside a material.
pub open spec fn indices_from(m: Seq<(Seq<char>, ValueView)>, inside: Seq<char>) -> Result<
    (Seq<char>, Seq<char>),
    ErrorView,
> {
    match ior_value(read(m, "intIOR"@, ValueView::String(inside))) {
        Err(e) => Err(e),
        Ok(int_ior) => match ior_value(read(m, "extIOR"@, ValueView::String("air"@))) {
            Err(e) => Err(e),
            Ok(ext_ior) => Ok((int_ior, ext_ior)),
        },
    }
}

/// A dielectric: smooth, rough with a distribution, or thin.
pub open spec fn dielectric_from(
    ty: Seq<char>,
    m: Seq<(Seq<char>, ValueView)>,
    local: Seq<(Seq<char>, TextureView)>,
    textures: Seq<(Seq<char>, TextureView)>,
) -> Result<BsdfView, ErrorView> {
    match distribution_if(ty == "roughdielectric"@, m, textures) {
        Err(e) => Err(e),
        Ok(distribution) => match indices_from(m, "bk7"@) {
            Err(e) => Err(e),
            Ok((int_ior, ext_ior)) => match spectrum_or_texture(
                m,
                "specularReflectance"@,
                "1"@,
                local,
                textures,
            ) {
                Err(e) => Err(e),
                Ok(specular_reflectance) => match spectrum_or_texture(
                    m,
                    "specularTransmittance"@,
                    "1"@,
                    local,
                    textures,
                ) {
                    Err(e) => Err(e),
                    Ok(specular_transmittance) => Ok(
                        BsdfView::Dielectric {
                            distribution,
                            int_ior,
                            ext_ior,
                            specular_reflectance,
                            specular_transmittance,
                            thin: ty == "thindielectric"@,
                        },
                    ),
                },
            },
        },
    }
}

/// A plastic, smooth or rough with a distribution.
pub open spec fn plastic_from(
    ty: Seq<char>,
    m: Seq<(Seq<char>, ValueView)>,
    local: Seq<(Seq<char>, TextureView)>,
    textures: Seq<(Seq<char>, TextureView)>,
) -> Result<BsdfView, ErrorView> {
    match distribution_if(ty == "roughplastic"@, m, textures) {
        Err(e) => Err(e),
        Ok(distribution) => match indices_from(m, "polypropylene"@) {
            Err(e) => Err(e),
            Ok((int_ior, ext_ior)) => match spectrum_or_texture(
                m,
                "specularReflectance"@,
                "1"@,
                local,
                textures,
            ) {
                Err(e) => Err(e),
                Ok(specular_reflectance) => match spectrum_or_texture(
                    m,
                    "diffuseReflectance"@,
                    "0.5"@,
                    local,
                    textures,
                ) {
                    Err(e) => Err(e),
                    Ok(diffuse_reflectance) => match bool_prop(m, "nonlinear"@, false) {
                        Err(e) => Err(e),
                        Ok(nonlinear) => Ok(
                            BsdfView::Plastic {
                                distribution,
                                int_ior,
                                ext_ior,
                                specular_reflectance,
                                diffuse_reflectance,
                                nonlinear,
                            },
                        ),
                    },
                },
            },
        },
    }
}

/// A rough diffuse material.
pub open spec fn roughdiffuse_from(
    m: Seq<(Seq<char>, ValueView)>,
    local: Seq<(Seq<char>, TextureView)>,
    textures: Seq<(Seq<char>, TextureView)>,
) -> Result<BsdfView, ErrorView> {
    match spectrum_or_texture(m, "reflectance"@, "0.5"@, local, textures) {
        Err(e) => Err(e),
        Ok(reflectance) => match float_or_texture(m, "alpha"@, "0.1"@, local, textures) {
            Err(e) => Err(e),
            Ok(alpha) => match bool_prop(m, "useFastApprox"@, false) {
                Err(e) => Err(e),
                Ok(use_fast_approx) => Ok(
                    BsdfView::Roughtdiffuse { reflectance, alpha, use_fast_approx },
                ),
            },
        },
    }
}

/// A property that overrides what the table of conductors gives.
pub open spec fn spectrum_override(m: Seq<(Seq<char>, ValueView)>, key: Seq<char>, tabled: Seq<char>) -> Result<
    Seq<char>,
    ErrorView,
> {
    match dict_get(m, key) {
        None => Ok(tabled),
        Some(v) => spectrum_in(v),
    }
}

/// The refractive index and the extinction coefficient of a conductor: those
/// of the named `material`, unless `eta` or `k` is given.
pub open spec fn eta_and_k(m: Seq<(Seq<char>, ValueView)>) -> Result<(Seq<char>, Seq<char>), ErrorView> {
    match string_prop(m, "material"@, "Cu"@) {
        Err(e) => Err(e),
        Ok(name) => match material_of(name) {
            None => Err(ErrorView::UnknownVariant("material"@, name)),
            Some((eta_t, k_t)) => match spectrum_override(m, "eta"@, eta_t) {
                Err(e) => Err(e),
                Ok(eta) => match spectrum_override(m, "k"@, k_t) {
                    Err(e) => Err(e),
                    Ok(k) => Ok((eta, k)),
                },
            },
        },
    }
}

/// A conductor, smooth or rough with a distribution.
pub open spec fn conductor_from(
    ty: Seq<char>,
    m: Seq<(Seq<char>, ValueView)>,
    local: Seq<(Seq<char>, TextureView)>,
    textures: Seq<(Seq<char>, TextureView)>,
) -> Result<BsdfView, ErrorView> {
    match distribution_if(ty == "roughconductor"@, m, textures) {
        Err(e) => Err(e),
        Ok(distribution) => match eta_and_k(m) {
            Err(e) => Err(e),
            Ok((eta, k)) => match ior_value(read(m, "extEta"@, ValueView::String("air"@))) {
                Err(e) => Err(e),
                Ok(ext_eta) => match spectrum_or_texture(
                    m,
                    "specularReflectance"@,
                    "1"@,
                    local,
                    textures,
                ) {
                    Err(e) => Err(e),
                    Ok(specular_reflectance) => Ok(
                        BsdfView::Conductor { distribution, eta, k, ext_eta, specular_reflectance },
                    ),
                },
            },
        },
    }
}

/// The variant of a material after Ward that a name denotes.
pub open spec fn ward_variant(name: Seq<char>) -> Result<WardVariant, ErrorView> {
    if name == "balanced"@ {
        Ok(WardVariant::Balanced)
    } else if name == "ward"@ {
        Ok(WardVariant::Ward)
    } else if name == "ward_duer"@ {
        Ok(WardVariant::WardDuer)
    } else {
        Err(ErrorView::UnknownVariant("ward"@, name))
    }
}

/// A material after Ward.
pub open spec fn ward_from(
    m: Seq<(Seq<char>, ValueView)>,
    local: Seq<(Seq<char>, TextureView)>,
    textures: Seq<(Seq<char>, TextureView)>,
) -> Result<BsdfView, ErrorView> {
    match spectrum_or_texture(m, "specularReflectance"@, "0.2"@, local, textures) {
        Err(e) => Err(e),
        Ok(specular_reflectance) => match spectrum_or_texture(
            m,
            "diffuseReflectance"@,
            "0.5"@,
            local,
            textures,
        ) {
            Err(e) => Err(e),
            Ok(diffuse_reflectance) => match alpha_from(m, textures) {
                Err(e) => Err(e),
                Ok(alpha) => match string_prop(m, "variant"@, "balanced"@) {
                    Err(e) => Err(e),
                    Ok(name) => match ward_variant(name) {
                        Err(e) => Err(e),
                        Ok(variant) => Ok(
                            BsdfView::Ward {
                                variant,
                                alpha,
                                specular_reflectance,
                                diffuse_reflectance,
                            },
                        ),
                    },
                },
            },
        },
    }
}

/// A mask: the first material inside it, or the default one, and an opacity.
pub open spec fn mask_from(parts: BsdfParts, textures: Seq<(Seq<char>, TextureView)>) -> Result<
    BsdfView,
    ErrorView,
> {
    let bsdf = if parts.children.len() == 0 {
        default_bsdf()
    } else {
        parts.children[0]
    };
    match spectrum_or_texture(parts.props.map, "opacity"@, "1"@, parts.local, textures) {
        Err(e) => Err(e),
        Ok(opacity) => Ok(BsdfView::Mask { opacity, bsdf: Box::new(bsdf) }),
    }
}

/// A two-sided material: exactly one material inside it, and no property.
pub open spec fn twosided_from(parts: BsdfParts) -> Result<BsdfView, ErrorView> {
    if parts.props.map.len() > 0 {
        Err(ErrorView::UnknownVariant("twosided"@, parts.props.map[0].0))
    } else if parts.children.len() == 0 {
        Err(ErrorView::MissingAttribute("bsdf"@, "twosided"@))
    } else if parts.children.len() > 1 {
        Err(ErrorView::UnknownVariant("twosided"@, "bsdf"@))
    } else {
        Ok(BsdfView::TwoSided { bsdf: Box::new(parts.children[0]) })
    }
}

/// The weights of a mixture: the pieces of the trimmed text between commas
/// where it has one, and its words otherwise.
pub open spec fn weight_list(text: Seq<char>) -> Result<Seq<Seq<char>>, ErrorView> {
    let t = trim(text);
    let parts = if split(t, ',').len() > 1 {
        trim_each(split(t, ','))
    } else {
        words(t)
    };
    if all_numbers(parts) {
        Ok(parts)
    } else {
        Err(mismatch("weights"@, ValueView::String(text)))
    }
}

/// The name of the property that refers to the `i`-th material of a mixture.
pub open spec fn mixture_key(i: nat) -> Seq<char> {
    "mat"@ + decimal(i)
}

/// The declared materials that the properties `mat1`, `mat2`, … up to `n`
/// refer to, from the `i`-th on, after `acc`.
pub open spec fn referenced(
    m: Seq<(Seq<char>, ValueView)>,
    bsdfs: Seq<(Seq<char>, BsdfView)>,
    i: nat,
    n: nat,
    acc: Seq<BsdfView>,
) -> Result<Seq<BsdfView>, ErrorView>
    decreases n - i,
{
    if i >= n {
        Ok(acc)
    } else {
        match required(m, mixture_key(i + 1), "mixturebsdf"@) {
            Err(e) => Err(e),
            Ok(v) => match ref_in(v) {
                Err(e) => Err(e),
                Ok(id) => match dict_get(bsdfs, id) {
                    None => Err(ErrorView::UnresolvedReference(id)),
                    Some(b) => referenced(m, bsdfs, i + 1, n, acc.push(b)),
                },
            },
        }
    }
}

/// A mixture: its weights, and the materials inside it or, where there is
/// none, one declared material for each weight.
pub open spec fn mixture_from(parts: BsdfParts, bsdfs: Seq<(Seq<char>, BsdfView)>) -> Result<
    BsdfView,
    ErrorView,
> {
    match required_string(parts.props.map, "weights"@, "mixturebsdf"@) {
        Err(e) => Err(e),
        Ok(text) => match weight_list(text) {
            Err(e) => Err(e),
            Ok(weights) => if parts.children.len() == 0 {
                match referenced(parts.props.map, bsdfs, 0, weights.len(), Seq::empty()) {
                    Err(e) => Err(e),
                    Ok(found) => Ok(BsdfView::MixtureBSDF { weights, bsdfs: found }),
                }
            } else {
                Ok(BsdfView::MixtureBSDF { weights, bsdfs: parts.children })
            },
        },
    }
}

/// The material of kind `ty` that the parts of its element describe, in a
/// scene that declares `scene`.
pub open spec fn bsdf_from(ty: Seq<char>, parts: BsdfParts, scene: SceneView) -> Result<
    BsdfView,
    ErrorView,
> {
    let m = parts.props.map;
    if ty == "phong"@ {
        phong_from(m, parts.local, scene.textures)
    } else if ty == "diffuse"@ {
        diffuse_from(m, parts.local, scene.textures)
    } else if ty == "dielectric"@ || ty == "roughdielectric"@ || ty == "thindielectric"@ {
        dielectric_from(ty, m, parts.local, scene.textures)
    } else if ty == "mask"@ {
        mask_from(parts, scene.textures)
    } else if ty == "twosided"@ {
        twosided_from(parts)
    } else if ty == "roughplastic"@ || ty == "plastic"@ {
        plastic_from(ty, m, parts.local, scene.textures)
    } else if ty == "roughdiffuse"@ {
        roughdiffuse_from(m, parts.local, scene.textures)
    } else if ty == "mixturebsdf"@ {
        mixture_from(parts, scene.bsdfs)
    } else if ty == "conductor"@ || ty == "roughconductor"@ {
        conductor_from(ty, m, parts.local, scene.textures)
    } else if ty == "ward"@ {
        ward_from(m, parts.local, scene.textures)
    } else {
        Err(ErrorView::UnknownVariant("bsdf"@, ty))
    }
}

/// What the start of a `texture` element inside a material says: the name
/// of the parameter that it gives, its kind, and its identifier if it has one.
pub open spec fn texture_header(
    attrs: Seq<(Seq<char>, Seq<char>)>,
    defaults: Seq<(Seq<char>, Seq<char>)>,
) -> Result<(Seq<char>, Seq<char>, Option<Seq<char>>), ErrorView> {
    match required_attribute(attrs, "name"@, "texture"@, defaults) {
        Err(e) => Err(e),
        Ok(name) => match required_attribute(attrs, "type"@, "texture"@, defaults) {
            Err(e) => Err(e),
            Ok(ty) => match attribute(attrs, "id"@, defaults) {
                Err(e) => Err(e),
                Ok(id) => Ok((name, ty, id)),
            },
        },
    }
}

/// The scene with one more texture under an identifier, where there is one.
pub open spec fn declare_texture(scene: SceneView, id: Option<Seq<char>>, t: TextureView) -> SceneView {
    match id {
        Some(i) => SceneView { textures: dict_insert(scene.textures, i, t), ..scene },
        None => scene,
    }
}

/// The material of kind `ty` whose element's body begins at `pos`, the
/// scene with the textures that the element declares, and the position after
/// the element's end.
pub open spec fn bsdf_of(
    ev: Seq<EventView>,
    pos: int,
    defaults: Seq<(Seq<char>, Seq<char>)>,
    ty: Seq<char>,
    scene: SceneView,
) -> Result<(BsdfView, SceneView, int), ErrorView>
    decreases ev.len() - pos, 1int,
{
    if !is_bsdf_type(ty) {
        Err(ErrorView::UnknownVariant("bsdf"@, ty))
    } else {
        match bsdf_walk(ev, pos, false, defaults, ty, no_parts(), scene) {
            Err(e) => Err(e),
            Ok((parts, after, end)) => match no_refs(parts.props.refs) {
                Err(e) => Err(e),
                Ok(_) => match bsdf_from(ty, parts, after) {
                    Err(e) => Err(e),
                    Ok(b) => Ok((b, after, end)),
                },
            },
        }
    }
}

/// The body of a `bsdf` element of kind `ty` from `pos` on. A `texture`
/// child is kept under its name and, where it has an identifier, declared in
/// the scene; a `bsdf` child is kept where the kind holds materials.
pub open spec fn bsdf_walk(
    ev: Seq<EventView>,
    pos: int,
    opened: bool,
    defaults: Seq<(Seq<char>, Seq<char>)>,
    ty: Seq<char>,
    parts: BsdfParts,
    scene: SceneView,
) -> Result<(BsdfParts, SceneView, int), ErrorView>
    decreases ev.len() - pos, 0int,
{
    if pos < 0 || pos >= ev.len() {
        Err(end_of_document())
    } else {
        match leaf_step(ev[pos], opened, defaults, parts.props) {
            Outcome::Fail(e) => Err(e),
            Outcome::Finished => Ok((parts, scene, pos + 1)),
            Outcome::Next { opened: o, props: p } => bsdf_walk(
                ev,
                pos + 1,
                o,
                defaults,
                ty,
                BsdfParts { props: p, ..parts },
                scene,
            ),
            Outcome::Child => {
                let tag = ev[pos]->Start_name;
                let attrs = ev[pos]->Start_attributes;
                if tag == "texture"@ {
                    match texture_header(attrs, defaults) {
                        Err(e) => Err(e),
                        Ok((name, tty, id)) => match texture_of(ev, pos + 1, defaults, tty) {
                            Err(e) => Err(e),
                            Ok((t, end)) => bsdf_walk(
                                ev,
                                resume(pos, end, ev.len()),
                                opened,
                                defaults,
                                ty,
                                BsdfParts { local: dict_insert(parts.local, name, t), ..parts },
                                declare_texture(scene, id, t),
                            ),
                        },
                    }
                } else if tag == "bsdf"@ && nests(ty) {
                    match required_attribute(attrs, "type"@, "bsdf"@, defaults) {
                        Err(e) => Err(e),
                        Ok(cty) => match bsdf_of(ev, pos + 1, defaults, cty, scene) {
                            Err(e) => Err(e),
                            Ok((b, after, end)) => bsdf_walk(
                                ev,
                                resume(pos, end, ev.len()),
                                opened,
                                defaults,
                                ty,
                                BsdfParts { children: parts.children.push(b), ..parts },
                                after,
                            ),
                        },
                    }
                } else {
                    Err(unknown_element(tag))
                }
            },
        }
    }
}

/// The scene `after` is the scene `before` with textures declared: nothing
/// else differs, and where no identifier of a texture occurred twice, none
/// does.
pub open spec fn textures_added(before: SceneView, after: SceneView) -> bool {
    &&& after == (SceneView { textures: after.textures, ..before })
    &&& distinct_keys(before.textures) ==> distinct_keys(after.textures)
}

/// The reading of a material ends behind where it began and within the
/// document, and changes nothing of the scene but its textures.
pub proof fn lemma_bsdf_of(
    ev: Seq<EventView>,
    pos: int,
    defaults: Seq<(Seq<char>, Seq<char>)>,
    ty: Seq<char>,
    scene: SceneView,
)
    requires
        0 <= pos,
    ensures
        bsdf_of(ev, pos, defaults, ty, scene) matches Ok((_, after, end)) ==> pos < end
            <= ev.len() && textures_added(scene, after),
    decreases ev.len() - pos, 1int,
{
    if is_bsdf_type(ty) {
        lemma_bsdf_walk(ev, pos, false, defaults, ty, no_parts(), scene);
    }
}

/// The reading of the body of a material ends behind where it began and
/// within the document, and changes nothing of the scene but its textures.
pub proof fn lemma_bsdf_walk(
    ev: Seq<EventView>,
    pos: int,
    opened: bool,
    defaults: Seq<(Seq<char>, Seq<char>)>,
    ty: Seq<char>,
    parts: BsdfParts,
    scene: SceneView,
)
    requires
        0 <= pos,
    ensures
        bsdf_walk(ev, pos, opened, defaults, ty, parts, scene) matches Ok((_, after, end))
            ==> pos < end <= ev.len() && textures_added(scene, after),
    decreases ev.len() - pos, 0int,
{
    if pos < ev.len() {
        match leaf_step(ev[pos], opened, defaults, parts.props) {
            Outcome::Next { opened: o, props: p } => {
                lemma_bsdf_walk(ev, pos + 1, o, defaults, ty, BsdfParts { props: p, ..parts }, scene);
            },
            Outcome::Child => {
                let tag = ev[pos]->Start_name;
                let attrs = ev[pos]->Start_attributes;
                if tag == "texture"@ {
                    match texture_header(attrs, defaults) {
                        Ok((name, tty, id)) => match texture_of(ev, pos + 1, defaults, tty) {
                            Ok((t, end)) => {
                                let next = declare_texture(scene, id, t);
                                match id {
                                    Some(i) => {
                                        if distinct_keys(scene.textures) {
                                            lemma_insert_keeps_distinct(scene.textures, i, t);
                                        }
                                    },
                                    None => {},
                                }
                                lemma_bsdf_walk(
                                    ev,
                                    resume(pos, end, ev.len()),
                                    opened,
                                    defaults,
                                    ty,
                                    BsdfParts { local: dict_insert(parts.local, name, t), ..parts },
                                    next,
                                );
                            },
                            Err(_) => {},
                        },
                        Err(_) => {},
                    }
                } else if tag == "bsdf"@ && nests(ty) {
                    match required_attribute(attrs, "type"@, "bsdf"@, defaults) {
                        Ok(cty) => {
                            lemma_bsdf_of(ev, pos + 1, defaults, cty, scene);
                            match bsdf_of(ev, pos + 1, defaults, cty, scene) {
                                Ok((b, after, end)) => {
                                    lemma_bsdf_walk(
                                        ev,
                                        resume(pos, end, ev.len()),
                                        opened,
                                        defaults,
                                        ty,
                                        BsdfParts { children: parts.children.push(b), ..parts },
                                        after,
                                    );
                                },
                                Err(_) => {},
                            }
                        },
                        Err(_) => {},
                    }
                }
            },
            _ => {},
        }
    }
}

/// The variant of a material goes by the kind that its element declares.
pub open spec fn variant_matches(ty: Seq<char>, b: BsdfView) -> bool {
    if ty == "phong"@ {
        b is Phong
    } else if ty == "diffuse"@ {
        b is Diffuse
    } else if ty == "dielectric"@ || ty == "roughdielectric"@ || ty == "thindielectric"@ {
        b is Dielectric
    } else if ty == "mask"@ {
        b is Mask
    } else if ty == "twosided"@ {
        b is TwoSided
    } else if ty == "roughplastic"@ || ty == "plastic"@ {
        b is Plastic
    } else if ty == "roughdiffuse"@ {
        b is Roughtdiffuse
    } else if ty == "mixturebsdf"@ {
        b is MixtureBSDF
    } else if ty == "conductor"@ || ty == "roughconductor"@ {
        b is Conductor
    } else if ty == "ward"@ {
        b is Ward
    } else {
        false
    }
}

/// A material that is read from an element is of the variant that the
/// element's kind names.
pub proof fn lemma_variant_matches(
    ev: Seq<EventView>,
    pos: int,
    defaults: Seq<(Seq<char>, Seq<char>)>,
    ty: Seq<char>,
    scene: SceneView,
)
    ensures
        bsdf_of(ev, pos, defaults, ty, scene) matches Ok((b, _, _)) ==> variant_matches(ty, b),
{
}

/// A parameter of a material that is a texture by reference is a texture
/// that the scene declares under the identifier, and a reference to an
/// identifier that the scene does not declare is refused.
pub proof fn lemma_reference_is_declared(
    id: Seq<char>,
    textures: Seq<(Seq<char>, TextureView)>,
)
    ensures
        colour_spectrum(ValueView::Ref(id), textures) == colour_float(ValueView::Ref(id), textures),
        match colour_spectrum(ValueView::Ref(id), textures) {
            Ok(c) => c matches BSDFColorView::Texture(t) && dict_get(textures, id) == Some(t),
            Err(e) => dict_get(textures, id) is None && e == ErrorView::UnresolvedReference(id),
        },
{
}

/// No parameter of a material is a texture unless a reference or a nested
/// texture gave it.
pub proof fn lemma_constant_stays_constant(v: ValueView, textures: Seq<(Seq<char>, TextureView)>)
    requires
        !(v is Ref),
    ensures
        colour_spectrum(v, textures) matches Ok(c) ==> c is Constant,
        colour_float(v, textures) matches Ok(c) ==> c is Constant,
{
}

impl Value {
    /// A parameter that is a spectrum: the constant that the value is, or
    /// the texture of the scene that it refers to.
    pub fn as_bsdf_color_spec(self, scene: &Scene) -> (r: Result<BSDFColorSpectrum, Error>)
        ensures
            match colour_spectrum(self@, scene@.textures) {
                Ok(c) => r matches Ok(x) && x@ == c,
                Err(e) => r matches Err(x) && x@ == e,
            },
    {
        match self {
            Value::Spectrum(v) => Ok(BSDFColor::Constant(v)),
            Value::Ref(v) => match scene.textures.get(v.as_str()) {
                Some(t) => Ok(BSDFColor::Texture(t.clone())),
                None => Err(Error::UnresolvedReference(v)),
            },
            _ => Err(mismatch_error("as_bsdf_color_spec", self)),
        }
    }

    /// A parameter that is a number: the constant that the value is, or the
    /// texture of the scene that it refers to.
    pub fn as_bsdf_color_f32(self, scene: &Scene) -> (r: Result<BSDFColorFloat, Error>)
        ensures
            match colour_float(self@, scene@.textures) {
                Ok(c) => r matches Ok(x) && x@ == c,
                Err(e) => r matches Err(x) && x@ == e,
            },
    {
        match self {
            Value::Float(v) => Ok(BSDFColor::Constant(v)),
            Value::Ref(v) => match scene.textures.get(v.as_str()) {
                Some(t) => Ok(BSDFColor::Texture(t.clone())),
                None => Err(Error::UnresolvedReference(v)),
            },
            _ => Err(mismatch_error("as_bsdf_color_f32", self)),
        }
    }
}

/// A spectrum parameter of a material.
pub fn read_value_or_texture_spectrum(
    m: &Dict<Value>,
    n: &str,
    d: &str,
    textures: &Dict<Texture>,
    scene: &Scene,
) -> (r: Result<BSDFColorSpectrum, Error>)
    ensures
        match spectrum_or_texture(m@, n@, d@, textures@, scene@.textures) {
            Ok(c) => r matches Ok(x) && x@ == c,
            Err(e) => r matches Err(x) && x@ == e,
        },
{
    match m.get(n) {
        Some(v) => v.clone().as_bsdf_color_spec(scene),
        None => match textures.get(n) {
            Some(t) => Ok(BSDFColor::Texture(t.clone())),
            None => Ok(BSDFColor::Constant(Spectrum::new(d))),
        },
    }
}

/// A number parameter of a material.
pub fn read_value_or_texture_f32(
    m: &Dict<Value>,
    n: &str,
    d: &str,
    textures: &Dict<Texture>,
    scene: &Scene,
) -> (r: Result<BSDFColorFloat, Error>)
    ensures
        match float_or_texture(m@, n@, d@, textures@, scene@.textures) {
            Ok(c) => r matches Ok(x) && x@ == c,
            Err(e) => r matches Err(x) && x@ == e,
        },
{
    match m.get(n) {
        Some(v) => v.clone().as_bsdf_color_f32(scene),
        None => match textures.get(n) {
            Some(t) => Ok(BSDFColor::Texture(t.clone())),
            None => Ok(BSDFColor::Constant(Number::new(d))),
        },
    }
}

impl Alpha {
    /// The roughness that the properties `map` give.
    pub fn parse(map: &Dict<Value>, scene: &Scene) -> (r: Result<Alpha, Error>)
        ensures
            match alpha_from(map@, scene@.textures) {
                Ok(c) => r matches Ok(x) && x@ == c,
                Err(e) => r matches Err(x) && x@ == e,
            },
    {
        match map.get("alpha") {
            Some(v) => {
                let a = v.clone().as_bsdf_color_f32(scene)?;
                Ok(Alpha::Isotropic(a))
            },
            None => {
                let u = read_value(map, "alpha_u", Value::Float(Number::new("0.1"))).as_bsdf_color_f32(
                    scene,
                )?;
                let v = read_value(map, "alpha_v", Value::Float(Number::new("0.1"))).as_bsdf_color_f32(
                    scene,
                )?;
                if u.same(&v) {
                    Ok(Alpha::Isotropic(u))
                } else {
                    Ok(Alpha::Anisotropic { u, v })
                }
            },
        }
    }
}

impl Distribution {
    /// The distribution that the properties `map` give.
    pub fn parse(map: &Dict<Value>, scene: &Scene) -> (r: Result<Distribution, Error>)
        ensures
            match distribution_from(map@, scene@.textures) {
                Ok(c) => r matches Ok(x) && x@ == c,
                Err(e) => r matches Err(x) && x@ == e,
            },
    {
        let distribution = read_string(map, "distribution", "beckmann")?;
        let alpha = Alpha::parse(map, scene)?;
        Ok(Distribution { distribution, alpha })
    }
}

fn read_distribution_if(rough: bool, m: &Dict<Value>, scene: &Scene) -> (r: Result<
    Option<Distribution>,
    Error,
>)
    ensures
        match distribution_if(rough, m@, scene@.textures) {
            Ok(c) => r matches Ok(x) && option_view(x) == c,
            Err(e) => r matches Err(x) && x@ == e,
        },
{
    if rough {
        let d = Distribution::parse(m, scene)?;
        Ok(Some(d))
    } else {
        Ok(None)
    }
}

fn read_indices(m: &Dict<Value>, inside: &str) -> (r: Result<(Number, Number), Error>)
    ensures
        match indices_from(m@, inside@) {
            Ok(c) => r matches Ok(x) && x.0@ == c.0 && x.1@ == c.1,
            Err(e) => r matches Err(x) && x@ == e,
        },
{
    let int_ior = read_value(m, "intIOR", Value::String(inside.to_owned())).as_ior()?;
    let ext_ior = read_value(m, "extIOR", Value::String("air".to_owned())).as_ior()?;
    Ok((int_ior, ext_ior))
}

fn read_phong(m: &Dict<Value>, local: &Dict<Texture>, scene: &Scene) -> (r: Result<BSDF, Error>)
    ensures
        match phong_from(m@, local@, scene@.textures) {
            Ok(c) => r matches Ok(x) && x@ == c,
            Err(e) => r matches Err(x) && x@ == e,
        },
{
    let exponent = read_value_or_texture_f32(m, "exponent", "30", local, scene)?;
    let specular_reflectance = read_value_or_texture_spectrum(
        m,
        "specularReflectance",
        "0.2",
        local,
        scene,
    )?;
    let diffuse_reflectance = read_value_or_texture_spectrum(
        m,
        "diffuseReflectance",
        "0.5",
        local,
        scene,
    )?;
    Ok(BSDF::Phong { exponent, specular_reflectance, diffuse_reflectance })
}

fn read_diffuse(m: &Dict<Value>, local: &Dict<Texture>, scene: &Scene) -> (r: Result<BSDF, Error>)
    ensures
        match diffuse_from(m@, local@, scene@.textures) {
            Ok(c) => r matches Ok(x) && x@ == c,
            Err(e) => r matches Err(x) && x@ == e,
        },
{
    let first = read_value_or_texture_spectrum(m, "reflectance", "0.5", local, scene)?;
    let half: BSDFColorSpectrum = BSDFColor::Constant(Spectrum::new("0.5"));
    if first.same(&half) {
        let reflectance = read_value_or_texture_spectrum(
            m,
            "diffuseReflectance",
            "0.5",
            local,
            scene,
        )?;
        Ok(BSDF::Diffuse { reflectance })
    } else {
        Ok(BSDF::Diffuse { reflectance: first })
    }
}

fn read_dielectric(ty: &str, m: &Dict<Value>, local: &Dict<Texture>, scene: &Scene) -> (r: Result<
    BSDF,
    Error,
>)
    ensures
        match dielectric_from(ty@, m@, local@, scene@.textures) {
            Ok(c) => r matches Ok(x) && x@ == c,
            Err(e) => r matches Err(x) && x@ == e,
        },
{
    let distribution = read_distribution_if(str_eq(ty, "roughdielectric"), m, scene)?;
    let (int_ior, ext_ior) = read_indices(m, "bk7")?;
    let specular_reflectance = read_value_or_texture_spectrum(
        m,
        "specularReflectance",
        "1",
        local,
        scene,
    )?;
    let specular_transmittance = read_value_or_texture_spectrum(
        m,
        "specularTransmittance",
        "1",
        local,
        scene,
    )?;
    Ok(
        BSDF::Dielectric {
            distribution,
            int_ior,
            ext_ior,
            specular_reflectance,
            specular_transmittance,
            thin: str_eq(ty, "thindielectric"),
        },
    )
}

fn read_plastic(ty: &str, m: &Dict<Value>, local: &Dict<Texture>, scene: &Scene) -> (r: Result<
    BSDF,
    Error,
>)
    ensures
        match plastic_from(ty@, m@, local@, scene@.textures) {
            Ok(c) => r matches Ok(x) && x@ == c,
            Err(e) => r matches Err(x) && x@ == e,
        },
{
    let distribution = read_distribution_if(str_eq(ty, "roughplastic"), m, scene)?;
    let (int_ior, ext_ior) = read_indices(m, "polypropylene")?;
    let specular_reflectance = read_value_or_texture_spectrum(
        m,
        "specularReflectance",
        "1",
        local,
        scene,
    )?;
    let diffuse_reflectance = read_value_or_texture_spectrum(
        m,
        "diffuseReflectance",
        "0.5",
        local,
        scene,
    )?;
    let nonlinear = read_bool(m, "nonlinear", false)?;
    Ok(
        BSDF::Plastic {
            distribution,
            int_ior,
            ext_ior,
            specular_reflectance,
            diffuse_reflectance,
            nonlinear,
        },
    )
}

fn read_roughdiffuse(m: &Dict<Value>, local: &Dict<Texture>, scene: &Scene) -> (r: Result<
    BSDF,
    Error,
>)
    ensures
        match roughdiffuse_from(m@, local@, scene@.textures) {
            Ok(c) => r matches Ok(x) && x@ == c,
            Err(e) => r matches Err(x) && x@ == e,
        },
{
    let reflectance = read_value_or_texture_spectrum(m, "reflectance", "0.5", local, scene)?;
    let alpha = read_value_or_texture_f32(m, "alpha", "0.1", local, scene)?;
    let use_fast_approx = read_bool(m, "useFastApprox", false)?;
    Ok(BSDF::Roughtdiffuse { reflectance, alpha, use_fast_approx })
}

fn read_override(m: &Dict<Value>, key: &str, tabled: Spectrum) -> (r: Result<Spectrum, Error>)
    ensures
        match spectrum_override(m@, key@, tabled@) {
            Ok(c) => r matches Ok(x) && x@ == c,
            Err(e) => r matches Err(x) && x@ == e,
        },
{
    match m.get(key) {
        None => Ok(tabled),
        Some(v) => v.clone().as_spectrum(),
    }
}

fn read_eta_and_k(m: &Dict<Value>) -> (r: Result<(Spectrum, Spectrum), Error>)
    ensures
        match eta_and_k(m@) {
            Ok(c) => r matches Ok(x) && x.0@ == c.0 && x.1@ == c.1,
            Err(e) => r matches Err(x) && x@ == e,
        },
{
    let name = read_string(m, "material", "Cu")?;
    match lookup_material(name.as_str()) {
        None => Err(Error::UnknownVariant("material".to_owned(), name)),
        Some((eta_t, k_t)) => {
            let eta = read_override(m, "eta", eta_t)?;
            let k = read_override(m, "k", k_t)?;
            Ok((eta, k))
        },
    }
}

fn read_conductor(ty: &str, m: &Dict<Value>, local: &Dict<Texture>, scene: &Scene) -> (r: Result<
    BSDF,
    Error,
>)
    ensures
        match conductor_from(ty@, m@, local@, scene@.textures) {
            Ok(c) => r matches Ok(x) && x@ == c,
            Err(e) => r matches Err(x) && x@ == e,
        },
{
    let distribution = read_distribution_if(str_eq(ty, "roughconductor"), m, scene)?;
    let (eta, k) = read_eta_and_k(m)?;
    let ext_eta = read_value(m, "extEta", Value::String("air".to_owned())).as_ior()?;
    let specular_reflectance = read_value_or_texture_spectrum(
        m,
        "specularReflectance",
        "1",
        local,
        scene,
    )?;
    Ok(BSDF::Conductor { distribution, eta, k, ext_eta, specular_reflectance })
}

fn read_ward_variant(name: String) -> (r: Result<WardVariant, Error>)
    ensures
        match ward_variant(name@) {
            Ok(c) => r matches Ok(x) && x == c,
            Err(e) => r matches Err(x) && x@ == e,
        },
{
    if str_eq(name.as_str(), "balanced") {
        Ok(WardVariant::Balanced)
    } else if str_eq(name.as_str(), "ward") {
        Ok(WardVariant::Ward)
    } else if str_eq(name.as_str(), "ward_duer") {
        Ok(WardVariant::WardDuer)
    } else {
        Err(Error::UnknownVariant("ward".to_owned(), name))
    }
}

fn read_ward(m: &Dict<Value>, local: &Dict<Texture>, scene: &Scene) -> (r: Result<BSDF, Error>)
    ensures
        match ward_from(m@, local@, scene@.textures) {
            Ok(c) => r matches Ok(x) && x@ == c,
            Err(e) => r matches Err(x) && x@ == e,
        },
{
    let specular_reflectance = read_value_or_texture_spectrum(
        m,
        "specularReflectance",
        "0.2",
        local,
        scene,
    )?;
    let diffuse_reflectance = read_value_or_texture_spectrum(
        m,
        "diffuseReflectance",
        "0.5",
        local,
        scene,
    )?;
    let alpha = Alpha::parse(m, scene)?;
    let name = read_string(m, "variant", "balanced")?;
    let variant = read_ward_variant(name)?;
    Ok(BSDF::Ward { variant, alpha, specular_reflectance, diffuse_reflectance })
}

fn read_weights(text: String) -> (r: Result<Vec<Number>, Error>)
    ensures
        match weight_list(text@) {
            Ok(c) => r matches Ok(x) && numbers_view(x@) == c,
            Err(e) => r matches Err(x) && x@ == e,
        },
{
    let v = chars_of(text.as_str());
    let t = trim_chars(&v);
    let pieces = split_chars(&t, ',');
    let parts = if pieces.len() > 1 {
        trim_all(&pieces)
    } else {
        words_of(&t)
    };
    match numbers_of(&parts) {
        Some(w) => Ok(w),
        None => Err(mismatch_error("weights", Value::String(text))),
    }
}

fn read_referenced(m: &Dict<Value>, bsdfs: &Dict<BSDF>, n: usize) -> (r: Result<Vec<BSDF>, Error>)
    ensures
        match referenced(m@, bsdfs@, 0, n as nat, Seq::empty()) {
            Ok(c) => r matches Ok(x) && bsdfs_view(x@) == c,
            Err(e) => r matches Err(x) && x@ == e,
        },
{
    let mut out: Vec<BSDF> = Vec::new();
    let mut i: usize = 0;
    assert(bsdfs_view(out@) =~= Seq::<BsdfView>::empty());
    while i < n
        invariant
            i <= n,
            referenced(m@, bsdfs@, 0, n as nat, Seq::empty()) == referenced(
                m@,
                bsdfs@,
                i as nat,
                n as nat,
                bsdfs_view(out@),
            ),
        decreases n - i,
    {
        let digits = decimal_chars(i + 1);
        let mut key = "mat".to_owned();
        key.append(string_of(&digits).as_str());
        let id = read_required(m, key.as_str(), "mixturebsdf")?.as_ref()?;
        match bsdfs.get(id.as_str()) {
            None => {
                return Err(Error::UnresolvedReference(id));
            },
            Some(b) => {
                let ghost before = bsdfs_view(out@);
                out.push(b.clone());
                assert(bsdfs_view(out@) =~= before.push(b@));
            },
        }
        i += 1;
    }
    Ok(out)
}

impl BSDF {
    /// The material that stands in where none is given.
    pub fn default() -> (r: BSDF)
        ensures
            r@ == default_bsdf(),
    {
        BSDF::Diffuse { reflectance: BSDFColor::Constant(Spectrum::new("0.8")) }
    }

    /// The material of kind `bsdf_type` that the parts of its element describe.
    pub fn from_parts(
        bsdf_type: &str,
        props: &Props,
        local: &Dict<Texture>,
        children: Vec<BSDF>,
        scene: &Scene,
    ) -> (r: Result<BSDF, Error>)
        ensures
            match bsdf_from(
                bsdf_type@,
                BsdfParts { props: props@, local: local@, children: bsdfs_view(children@) },
                scene@,
            ) {
                Ok(c) => r matches Ok(x) && x@ == c,
                Err(e) => r matches Err(x) && x@ == e,
            },
    {
        let ty = bsdf_type;
        let m = &props.map;
        let mut children = children;
        if str_eq(ty, "phong") {
            read_phong(m, local, scene)
        } else if str_eq(ty, "diffuse") {
            read_diffuse(m, local, scene)
        } else if str_eq(ty, "dielectric") || str_eq(ty, "roughdielectric") || str_eq(
            ty,
            "thindielectric",
        ) {
            read_dielectric(ty, m, local, scene)
        } else if str_eq(ty, "mask") {
            let ghost kids = bsdfs_view(children@);
            let bsdf = if children.len() == 0 {
                BSDF::default()
            } else {
                let b = children.swap_remove(0);
                assert(b@ == kids[0]);
                b
            };
            let opacity = read_value_or_texture_spectrum(m, "opacity", "1", local, scene)?;
            Ok(BSDF::Mask { opacity, bsdf: Box::new(bsdf) })
        } else if str_eq(ty, "twosided") {
            if m.len() > 0 {
                Err(Error::UnknownVariant("twosided".to_owned(), m.key_at(0).clone()))
            } else if children.len() == 0 {
                Err(Error::MissingAttribute("bsdf".to_owned(), "twosided".to_owned()))
            } else if children.len() > 1 {
                Err(Error::UnknownVariant("twosided".to_owned(), "bsdf".to_owned()))
            } else {
                let ghost kids = bsdfs_view(children@);
                let b = children.swap_remove(0);
                assert(b@ == kids[0]);
                Ok(BSDF::TwoSided { bsdf: Box::new(b) })
            }
        } else if str_eq(ty, "roughplastic") || str_eq(ty, "plastic") {
            read_plastic(ty, m, local, scene)
        } else if str_eq(ty, "roughdiffuse") {
            read_roughdiffuse(m, local, scene)
        } else if str_eq(ty, "mixturebsdf") {
            let text = read_required_string(m, "weights", "mixturebsdf")?;
            let weights = read_weights(text)?;
            if children.len() == 0 {
                let found = read_referenced(m, &scene.bsdfs, weights.len())?;
                let r = BSDF::MixtureBSDF { weights, bsdfs: found };
                assert(r@->MixtureBSDF_bsdfs =~= bsdfs_view(found@));
                Ok(r)
            } else {
                let r = BSDF::MixtureBSDF { weights, bsdfs: children };
                assert(r@->MixtureBSDF_bsdfs =~= bsdfs_view(children@));
                Ok(r)
            }
        } else if str_eq(ty, "conductor") || str_eq(ty, "roughconductor") {
            read_conductor(ty, m, local, scene)
        } else if str_eq(ty, "ward") {
            read_ward(m, local, scene)
        } else {
            Err(Error::UnknownVariant("bsdf".to_owned(), ty.to_owned()))
        }
    }

    /// Whether `bsdf_type` names a kind of material.
    pub fn is_known(bsdf_type: &str) -> (r: bool)
        ensures
            r == is_bsdf_type(bsdf_type@),
    {
        let ty = bsdf_type;
        str_eq(ty, "phong") || str_eq(ty, "diffuse") || str_eq(ty, "dielectric") || str_eq(
            ty,
            "roughdielectric",
        ) || str_eq(ty, "thindielectric") || str_eq(ty, "mask") || str_eq(ty, "twosided")
            || str_eq(ty, "roughplastic") || str_eq(ty, "plastic") || str_eq(ty, "roughdiffuse")
            || str_eq(ty, "mixturebsdf") || str_eq(ty, "conductor") || str_eq(
            ty,
            "roughconductor",
        ) || str_eq(ty, "ward")
    }

    /// Reads the body of a `bsdf` element of kind `bsdf_type`, from `pos`
    /// on to the element's end. The textures that the element declares under
    /// an identifier go into the scene; whether the reading succeeds or
    /// fails, nothing else of the scene changes.
    pub fn parse(
        events: &Vec<Event>,
        pos: &mut usize,
        defaults: &Dict<String>,
        bsdf_type: &str,
        scene: &mut Scene,
    ) -> (r: Result<BSDF, Error>)
        ensures
            match bsdf_of(
                events_view(events@),
                *old(pos) as int,
                defaults@,
                bsdf_type@,
                old(scene)@,
            ) {
                Ok((b, after, end)) => r matches Ok(x) && x@ == b && final(scene)@ == after
                    && *final(pos) == end && *old(pos) < end <= events.len(),
                Err(e) => r matches Err(x) && x@ == e,
            },
            textures_added(old(scene)@, final(scene)@),
        decreases events.len() - *old(pos),
    {
        if !BSDF::is_known(bsdf_type) {
            return Err(Error::UnknownVariant("bsdf".to_owned(), bsdf_type.to_owned()));
        }
        let nested = str_eq(bsdf_type, "mask") || str_eq(bsdf_type, "twosided") || str_eq(
            bsdf_type,
            "mixturebsdf",
        );
        if *pos > events.len() {
            return Err(end_of_document_error());
        }
        let ghost ev = events_view(events@);
        let start: usize = *pos;
        let mut props = Props::new();
        let mut local: Dict<Texture> = Dict::new();
        let mut children: Vec<BSDF> = Vec::new();
        let mut opened = false;
        let mut p: usize = start;
        assert(bsdfs_view(children@) =~= Seq::<BsdfView>::empty());
        while p < events.len()
            invariant
                start == *old(pos),
                start <= p <= events.len(),
                ev == events_view(events@),
                is_bsdf_type(bsdf_type@),
                nested == nests(bsdf_type@),
                textures_added(old(scene)@, scene@),
                bsdf_walk(ev, start as int, false, defaults@, bsdf_type@, no_parts(), old(scene)@)
                    == bsdf_walk(
                    ev,
                    p as int,
                    opened,
                    defaults@,
                    bsdf_type@,
                    BsdfParts { props: props@, local: local@, children: bsdfs_view(children@) },
                    scene@,
                ),
            decreases events.len() - p,
        {
            let event = &events[p];
            match take_event(event, &mut opened, defaults, &mut props)? {
                Step::Continue => {
                    p += 1;
                },
                Step::Finished => {
                    *pos = p + 1;
                    check_no_refs(&props.refs)?;
                    return BSDF::from_parts(bsdf_type, &props, &local, children, scene);
                },
                Step::Child => {
                    match event {
                        Event::Start { name, attributes } => {
                            let mut q: usize = p + 1;
                            if str_eq(name.as_str(), "texture") {
                                let tname = found_attrib_or_error(
                                    attributes,
                                    "name",
                                    "texture",
                                    defaults,
                                )?;
                                let tty = found_attrib_or_error(
                                    attributes,
                                    "type",
                                    "texture",
                                    defaults,
                                )?;
                                let id = found_attrib(attributes, "id", defaults)?;
                                let t = Texture::parse(events, &mut q, defaults, tty.as_str())?;
                                match id {
                                    Some(i) => {
                                        scene.textures.insert(i, t.clone());
                                    },
                                    None => {},
                                }
                                local.insert(tname, t);
                            } else if nested && str_eq(name.as_str(), "bsdf") {
                                let cty = found_attrib_or_error(
                                    attributes,
                                    "type",
                                    "bsdf",
                                    defaults,
                                )?;
                                let b = BSDF::parse(events, &mut q, defaults, cty.as_str(), scene)?;
                                let ghost before = bsdfs_view(children@);
                                children.push(b);
                                assert(bsdfs_view(children@) =~= before.push(b@));
                            } else {
                                return Err(unknown_element_error(name.as_str()));
                            }
                            p = q;
                        },
                        _ => {
                            return Err(unexpected_content_error());
                        },
                    }
                },
            }
        }
        Err(end_of_document_error())
    }
}

} // verus!
