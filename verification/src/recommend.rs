//! The next step the setup recommends, from the state of every diagnostic.
use vstd::prelude::*;

use crate::model::{owned, CheckItem, ModuleOrigin, PackagePresence};
use crate::text::str_eq;

verus! {

/// The facts the recommendation decides on, besides the Secure Boot key code.
pub struct RecommendationState {
    pub missing_packages: bool,
    pub akmods_failed: bool,
    pub module_origin: ModuleOrigin,
    pub manual_updates_override: bool,
    pub clock_error: bool,
    pub module_loaded: bool,
    pub libcamera_detected: bool,
    pub libcamera_permission_blocked: bool,
    pub camera_source_ready: bool,
    pub browser_camera_ready: bool,
    pub camera_app_installed: bool,
    pub speaker_supported: bool,
    pub speaker_ready: bool,
    pub sound_app_installed: bool,
}


/// Title and body of the "prepare" recommendation.
pub open spec fn rec_prepare() -> (Seq<char>, Seq<char>) {
    ("Prepare a chave do Secure Boot"@, "O Secure Boot está ativo, mas a chave usada pelo akmods ainda não está pronta ou inscrita no MOK. Use a ação rápida dedicada antes de instalar ou carregar módulos externos do notebook."@)
}

/// Title and body of the "mok" recommendation.
pub open spec fn rec_mok() -> (Seq<char>, Seq<char>) {
    ("Concluir inscrição do MOK"@, "O pedido de importação da chave do akmods já foi criado. Reinicie o notebook e conclua 'Enroll MOK' na tela azul do boot antes de repetir as ações do driver."@)
}

/// Title and body of the "install" recommendation.
pub open spec fn rec_install() -> (Seq<char>, Seq<char>) {
    ("Instalação pendente"@, "Instale os pacotes principais da câmera pela própria seção de ações rápidas, reinicie o sistema e atualize o diagnóstico."@)
}

/// Title and body of the "akmods" recommendation.
pub open spec fn rec_akmods() -> (Seq<char>, Seq<char>) {
    ("O driver não foi gerado no boot"@, "O akmods falhou ao construir o módulo para o kernel atual. Reexecute o reparo do driver, confira o log do akmods e reinicie antes de testar a câmera novamente."@)
}

/// Title and body of the "intree" recommendation.
pub open spec fn rec_intree() -> (Seq<char>, Seq<char>) {
    ("O sistema caiu para o driver in-tree"@, "O boot registrou que o ov02c10 carregado foi o do kernel, que não suporta o clock de 26 MHz deste hardware. Ajuste a prioridade do driver corrigido pela seção de ações rápidas e reinicie."@)
}

/// Title and body of the "unloaded" recommendation.
pub open spec fn rec_unloaded() -> (Seq<char>, Seq<char>) {
    ("O driver corrigido não foi carregado"@, "O módulo ov02c10 corrigido está instalado no sistema, mas não entrou no kernel. Habilite o carregamento automático do driver e reinicie para a câmera voltar a aparecer no grafo de mídia."@)
}

/// Title and body of the "blocked" recommendation.
pub open spec fn rec_blocked() -> (Seq<char>, Seq<char>) {
    ("O bridge do navegador bloqueou o libcamera"@, "Uma configuração antiga da câmera para navegador removeu o acesso do usuário aos nós crus do IPU6. Reaplique a ação rápida da câmera para navegador para migrar o bridge para o fluxo novo, que mantém o libcamera e a webcam virtual funcionando juntos."@)
}

/// Title and body of the "override" recommendation.
pub open spec fn rec_override() -> (Seq<char>, Seq<char>) {
    ("O override manual da câmera está atrapalhando o libcamera"@, "A câmera do kernel parece estável, mas o caminho direto do Galaxy Book Câmera não encontrou o sensor enquanto um ov02c10 manual em /updates está ativo. O próximo passo é restaurar o stack Intel IPU6 pela seção de ações rápidas."@)
}

/// Title and body of the "browser" recommendation.
pub open spec fn rec_browser() -> (Seq<char>, Seq<char>) {
    ("Compatibilidade com navegador pendente"@, "A câmera base já está pronta para uso no sistema, mas a webcam virtual para Meet, Discord, Teams e outros apps ainda não está ativa. Use a ação rápida para expor a câmera como dispositivo V4L2."@)
}

/// Title and body of the "nocamera" recommendation.
pub open spec fn rec_nocamera() -> (Seq<char>, Seq<char>) {
    ("A câmera ainda não apareceu no caminho direto do app"@, "O driver e os pacotes principais parecem presentes, mas a câmera ainda não foi detectada nem no caminho direto do Galaxy Book Câmera nem nas fontes do sistema. O próximo passo é revisar os logs do boot e a pilha IPU6."@)
}

/// Title and body of the "noapp" recommendation.
pub open spec fn rec_noapp() -> (Seq<char>, Seq<char>) {
    ("Driver pronto, app da câmera ausente"@, "A câmera já aparece no caminho direto do Galaxy Book Câmera. Instale o app para validar preview, foto e vídeo no fluxo final."@)
}

/// Title and body of the "speakers" recommendation.
pub open spec fn rec_speakers() -> (Seq<char>, Seq<char>) {
    ("Suporte dos alto-falantes pendente"@, "A máquina expõe amplificadores MAX98390, mas o pacote de speakers ainda não está pronto ou os módulos não foram carregados. Ative o suporte dos alto-falantes internos pela seção de ações rápidas e teste a saída Speaker novamente."@)
}

/// Title and body of the "sound" recommendation.
pub open spec fn rec_sound() -> (Seq<char>, Seq<char>) {
    ("Painel de som opcional ainda não instalado"@, "O suporte MAX98390 já parece pronto. Se você quiser equalizador, perfis e Atmos compatível, instale o Galaxy Book Sound pela seção de ações rápidas."@)
}

/// Title and body of the "ready" recommendation.
pub open spec fn rec_ready() -> (Seq<char>, Seq<char>) {
    ("Fluxo principal da câmera parece pronto"@, "O módulo corrigido parece ativo, o caminho direto do Galaxy Book Câmera já vê a câmera e o app final está instalado. Se os alto-falantes também já estiverem prontos, o próximo passo é abrir o Galaxy Book Câmera ou o Galaxy Book Sound e validar o fluxo final."@)
}

/// The recommendation: the first rule, in priority order, whose condition
/// holds.
pub open spec fn recommendation(sbk: Seq<char>, s: RecommendationState) -> (Seq<char>, Seq<char>) {
    if sbk == "mok-key-missing"@ || sbk == "mok-not-enrolled"@ {
        rec_prepare()
    } else if sbk == "mok-pending-enrollment"@ {
        rec_mok()
    } else if s.missing_packages {
        rec_install()
    } else if s.akmods_failed {
        rec_akmods()
    } else if s.module_origin == ModuleOrigin::InTree && s.clock_error {
        rec_intree()
    } else if s.module_origin == ModuleOrigin::Patched && !s.module_loaded {
        rec_unloaded()
    } else if s.libcamera_permission_blocked {
        rec_blocked()
    } else if s.manual_updates_override && !s.libcamera_detected {
        rec_override()
    } else if !s.browser_camera_ready && (s.libcamera_detected || s.camera_source_ready) {
        rec_browser()
    } else if !s.libcamera_detected && !s.camera_source_ready {
        rec_nocamera()
    } else if !s.camera_app_installed {
        rec_noapp()
    } else if s.speaker_supported && !s.speaker_ready {
        rec_speakers()
    } else if s.speaker_ready && !s.sound_app_installed {
        rec_sound()
    } else {
        rec_ready()
    }
}

fn pair(t: &str, b: &str) -> (r: (String, String))
    ensures
        r.0@ == t@,
        r.1@ == b@,
{
    (owned(t), owned(b))
}

/// Picks the next step from the state of every diagnostic.
pub fn recommend_next_step(
    secure_boot_key: &CheckItem,
    packages: &PackagePresence,
    akmods_failed: bool,
    module_origin: ModuleOrigin,
    manual_updates_override: bool,
    clock_error: bool,
    module_loaded: bool,
    libcamera_detected: bool,
    libcamera_permission_blocked: bool,
    camera_source_ready: bool,
    browser_camera_ready: bool,
    camera_app_installed: bool,
    speaker_supported: bool,
    speaker_ready: bool,
    sound_app_installed: bool,
) -> (r: (String, String))
    ensures
        (r.0@, r.1@) == recommendation(
            secure_boot_key.code@,
            RecommendationState {
                missing_packages: packages.missing@.len() > 0,
                akmods_failed,
                module_origin,
                manual_updates_override,
                clock_error,
                module_loaded,
                libcamera_detected,
                libcamera_permission_blocked,
                camera_source_ready,
                browser_camera_ready,
                camera_app_installed,
                speaker_supported,
                speaker_ready,
                sound_app_installed,
            },
        ),
{
    if str_eq(secure_boot_key.code, "mok-key-missing") || str_eq(secure_boot_key.code, "mok-not-enrolled") {
        return pair(
            "Prepare a chave do Secure Boot",
            "O Secure Boot está ativo, mas a chave usada pelo akmods ainda não está pronta ou inscrita no MOK. Use a ação rápida dedicada antes de instalar ou carregar módulos externos do notebook.",
        );
    }
    if str_eq(secure_boot_key.code, "mok-pending-enrollment") {
        return pair(
            "Concluir inscrição do MOK",
            "O pedido de importação da chave do akmods já foi criado. Reinicie o notebook e conclua 'Enroll MOK' na tela azul do boot antes de repetir as ações do driver.",
        );
    }
    if packages.missing.len() > 0 {
        return pair(
            "Instalação pendente",
            "Instale os pacotes principais da câmera pela própria seção de ações rápidas, reinicie o sistema e atualize o diagnóstico.",
        );
    }
    if akmods_failed {
        return pair(
            "O driver não foi gerado no boot",
            "O akmods falhou ao construir o módulo para o kernel atual. Reexecute o reparo do driver, confira o log do akmods e reinicie antes de testar a câmera novamente.",
        );
    }
    if module_origin == ModuleOrigin::InTree && clock_error {
        return pair(
            "O sistema caiu para o driver in-tree",
            "O boot registrou que o ov02c10 carregado foi o do kernel, que não suporta o clock de 26 MHz deste hardware. Ajuste a prioridade do driver corrigido pela seção de ações rápidas e reinicie.",
        );
    }
    if module_origin == ModuleOrigin::Patched && !module_loaded {
        return pair(
            "O driver corrigido não foi carregado",
            "O módulo ov02c10 corrigido está instalado no sistema, mas não entrou no kernel. Habilite o carregamento automático do driver e reinicie para a câmera voltar a aparecer no grafo de mídia.",
        );
    }
    if libcamera_permission_blocked {
        return pair(
            "O bridge do navegador bloqueou o libcamera",
            "Uma configuração antiga da câmera para navegador removeu o acesso do usuário aos nós crus do IPU6. Reaplique a ação rápida da câmera para navegador para migrar o bridge para o fluxo novo, que mantém o libcamera e a webcam virtual funcionando juntos.",
        );
    }
    if manual_updates_override && !libcamera_detected {
        return pair(
            "O override manual da câmera está atrapalhando o libcamera",
            "A câmera do kernel parece estável, mas o caminho direto do Galaxy Book Câmera não encontrou o sensor enquanto um ov02c10 manual em /updates está ativo. O próximo passo é restaurar o stack Intel IPU6 pela seção de ações rápidas.",
        );
    }
    if !browser_camera_ready && (libcamera_detected || camera_source_ready) {
        return pair(
            "Compatibilidade com navegador pendente",
            "A câmera base já está pronta para uso no sistema, mas a webcam virtual para Meet, Discord, Teams e outros apps ainda não está ativa. Use a ação rápida para expor a câmera como dispositivo V4L2.",
        );
    }
    if !libcamera_detected && !camera_source_ready {
        return pair(
            "A câmera ainda não apareceu no caminho direto do app",
            "O driver e os pacotes principais parecem presentes, mas a câmera ainda não foi detectada nem no caminho direto do Galaxy Book Câmera nem nas fontes do sistema. O próximo passo é revisar os logs do boot e a pilha IPU6.",
        );
    }
    if !camera_app_installed {
        return pair(
            "Driver pronto, app da câmera ausente",
            "A câmera já aparece no caminho direto do Galaxy Book Câmera. Instale o app para validar preview, foto e vídeo no fluxo final.",
        );
    }
    if speaker_supported && !speaker_ready {
        return pair(
            "Suporte dos alto-falantes pendente",
            "A máquina expõe amplificadores MAX98390, mas o pacote de speakers ainda não está pronto ou os módulos não foram carregados. Ative o suporte dos alto-falantes internos pela seção de ações rápidas e teste a saída Speaker novamente.",
        );
    }
    if speaker_ready && !sound_app_installed {
        return pair(
            "Painel de som opcional ainda não instalado",
            "O suporte MAX98390 já parece pronto. Se você quiser equalizador, perfis e Atmos compatível, instale o Galaxy Book Sound pela seção de ações rápidas.",
        );
    }
    pair(
        "Fluxo principal da câmera parece pronto",
        "O módulo corrigido parece ativo, o caminho direto do Galaxy Book Câmera já vê a câmera e o app final está instalado. Se os alto-falantes também já estiverem prontos, o próximo passo é abrir o Galaxy Book Câmera ou o Galaxy Book Sound e validar o fluxo final.",
    )
}

} // verus!
